//! The warning facility: each warning is written or silently counted, by its
//! category, and a closing summary says how many were held back.

use crate::style::{render_warning_label, warning_label};
use crate::text::{decimal, push_decimal};
use crate::throttle::{lemma_raise_wf, suppression_notice, WarningModel};
use vstd::hash_map::StringHashMap;
use vstd::hash_set::StringHashSet;
use vstd::prelude::*;
use vstd::string::StringExecFns;

verus! {

/// The counts and settings that decide which warnings are written.
pub struct WarningState {
    max: u32,
    muted: StringHashSet,
    raised: StringHashMap<u32>,
    order: Vec<String>,
}

/// The texts of a sequence of strings.
pub open spec fn texts(strings: Seq<String>) -> Seq<Seq<char>> {
    Seq::new(strings.len(), |i: int| strings[i]@)
}

/// The set of the texts of a sequence of strings.
pub open spec fn text_set(strings: Seq<String>) -> Set<Seq<char>> {
    Set::new(|c: Seq<char>| exists|i: int| 0 <= i < strings.len() && strings[i]@ == c)
}

/// An optional text as plain values.
pub open spec fn name_model(name: Option<&str>) -> Option<Seq<char>> {
    match name {
        Some(text) => Some(text@),
        None => None,
    }
}

/// What stands before the label of a warning: the file and line it is
/// about, as far as they are known.
pub open spec fn location_prefix(file: Option<Seq<char>>, line: Option<u32>) -> Seq<char> {
    match (file, line) {
        (Some(f), Some(l)) => "In file "@ + f + ":"@ + decimal(l as nat) + ": "@,
        (Some(f), None) => "In file "@ + f + ": "@,
        (None, Some(l)) => "In line "@ + decimal(l as nat) + ": "@,
        (None, None) => Seq::empty(),
    }
}

/// What stands behind the message of a warning: its category in square
/// brackets, or nothing where it has none.
pub open spec fn category_tag(name: Option<Seq<char>>) -> Seq<char> {
    match name {
        Some(c) => " ["@ + c + "]"@,
        None => Seq::empty(),
    }
}

/// The line that is written for a warning.
pub open spec fn warning_text(
    label: Seq<char>,
    msg: Seq<char>,
    name: Option<Seq<char>>,
    file: Option<Seq<char>>,
    line: Option<u32>,
) -> Seq<char> {
    location_prefix(file, line) + label + ": "@ + msg + category_tag(name)
}

/// The lines that are written for the notices of a summary.
pub open spec fn summary_lines(notices: Seq<Seq<char>>, label: Seq<char>) -> Seq<Seq<char>> {
    Seq::new(notices.len(), |i: int| warning_text(label, notices[i], None, None, None))
}

/// Renders the line of a warning with the given label.
pub fn warning_message(
    label: &str,
    msg: &str,
    name: Option<&str>,
    location: (Option<&str>, Option<u32>),
) -> (text: String)
    ensures
        text@ == warning_text(label@, msg@, name_model(name), name_model(location.0), location.1),
{
    let mut text = String::new();
    match location {
        (Some(file), Some(line)) => {
            text.append("In file ");
            text.append(file);
            text.append(":");
            push_decimal(&mut text, line as u64);
            text.append(": ");
        },
        (Some(file), None) => {
            text.append("In file ");
            text.append(file);
            text.append(": ");
        },
        (None, Some(line)) => {
            text.append("In line ");
            push_decimal(&mut text, line as u64);
            text.append(": ");
        },
        (None, None) => {},
    }
    assert(text@ =~= location_prefix(name_model(location.0), location.1));
    text.append(label);
    text.append(": ");
    text.append(msg);
    match name {
        Some(category) => {
            text.append(" [");
            text.append(category);
            text.append("]");
        },
        None => {},
    }
    assert(text@ =~= warning_text(
        label@,
        msg@,
        name_model(name),
        name_model(location.0),
        location.1,
    ));
    text
}

/// Renders the notice that `excess` warnings of the category `name` were
/// suppressed.
pub fn render_suppression_notice(name: &str, excess: u32) -> (text: String)
    ensures
        text@ == suppression_notice(name@, excess as nat),
{
    let mut text = String::new();
    push_decimal(&mut text, excess as u64);
    if excess > 1 {
        text.append(" warnings of type \"");
        text.append(name);
        text.append("\" were suppressed to prevent spam. Use \"-w ");
    } else {
        text.append(" warning of type \"");
        text.append(name);
        text.append("\" was suppressed to prevent spam. Use \"-w ");
    }
    text.append(name);
    text.append("\" to disable these warnings entirely.");
    assert(text@ =~= suppression_notice(name@, excess as nat));
    text
}

impl View for WarningState {
    type V = WarningModel;

    closed spec fn view(&self) -> WarningModel {
        WarningModel {
            max: self.max,
            muted: self.muted@,
            raised: self.raised@,
            order: texts(self.order@),
        }
    }
}

impl WarningState {
    /// Whether the state is consistent: every category that was raised is
    /// listed once.
    pub open spec fn wf(&self) -> bool {
        self@.wf()
    }

    /// The state before anything was configured or raised: a cap of 10,
    /// nothing muted.
    pub fn new() -> (state: WarningState)
        ensures
            state.wf(),
            state@ == WarningModel::initial(),
    {
        let state = WarningState {
            max: 10,
            muted: StringHashSet::new(),
            raised: StringHashMap::new(),
            order: Vec::new(),
        };
        assert(state@.order =~= Seq::empty());
        state
    }

    /// How many warnings of one category are written before the rest is
    /// suppressed.
    pub fn max(&self) -> (max: u32)
        ensures
            max == self@.max,
    {
        self.max
    }

    /// How often the category `name` was raised.
    pub fn raised(&self, name: &str) -> (count: u32)
        ensures
            count == self@.count(name@),
    {
        match self.raised.get(name) {
            Some(count) => *count,
            None => 0,
        }
    }

    /// Whether the category `name` is muted.
    pub fn is_muted(&self, name: &str) -> (muted: bool)
        ensures
            muted == self@.muted.contains(name@),
    {
        self.muted.contains(name)
    }

    /// The notices of the summary, without a label: one for each category
    /// that was raised beyond the cap and is not muted, in the order of their
    /// first warning.
    pub fn summary_notices(&self) -> (notices: Vec<String>)
        ensures
            texts(notices@) == self@.summary(),
    {
        let mut notices: Vec<String> = Vec::new();
        let mut i: usize = 0;
        assert(texts(notices@) =~= self@.notices_upto(0));
        while i < self.order.len()
            invariant
                i <= self.order.len(),
                texts(notices@) == self@.notices_upto(i as nat),
            decreases self.order.len() - i,
        {
            let ghost earlier = notices@;
            let name = self.order[i].as_str();
            let count = self.raised(name);
            if !self.muted.contains(name) && count > self.max {
                notices.push(render_suppression_notice(name, count - self.max));
            }
            i = i + 1;
            proof {
                let before = self@.reported_upto((i - 1) as nat);
                let after = self@.reported_upto(i as nat);
                assert(self@.order[i - 1] == name@);
                assert(after == if self@.reported(name@) {
                    before.push(name@)
                } else {
                    before
                });
                assert(texts(earlier).len() == before.len());
                assert forall|k: int| 0 <= k < earlier.len() implies notices@[k]@
                    == self@.notices_upto(i as nat)[k] by {
                    assert(texts(earlier)[k] == self@.notices_upto((i - 1) as nat)[k]);
                    assert(after[k] == before[k]);
                }
                assert(texts(notices@) =~= self@.notices_upto(i as nat));
            }
        }
        notices
    }
}

/// Raises a warning. The result is the line to write, or `None` where the
/// warning is held back: its category is muted, or was raised as often as
/// the cap allows. A category that is not muted is counted either way. The
/// label is emphasised where the terminal settings ask for it.
pub fn warning(
    state: &mut WarningState,
    msg: &str,
    name: Option<&str>,
    location: (Option<&str>, Option<u32>),
) -> (written: Option<String>)
    requires
        old(state).wf(),
    ensures
        final(state).wf(),
        final(state)@ == old(state)@.raise(name_model(name)),
        written is Some <==> old(state)@.emits(name_model(name)),
        written matches Some(line) ==> exists|on: bool|
            line@ == warning_text(
                warning_label(on),
                msg@,
                name_model(name),
                name_model(location.0),
                location.1,
            ),
{
    if let Some(category) = name {
        if state.muted.contains(category) {
            return None;
        }
        let count = state.raised(category);
        if !state.raised.contains_key(category) {
            state.order.push(String::from_str(category));
        }
        let next = if count < u32::MAX {
            count + 1
        } else {
            count
        };
        state.raised.insert(String::from_str(category), next);
        proof {
            let before = old(state)@;
            let after = before.raise(Some(category@));
            assert(state@.order =~= after.order);
            assert(state@.raised =~= after.raised);
            lemma_raise_wf(before, Some(category@));
        }
        if count >= state.max {
            return None;
        }
    }
    let label = render_warning_label();
    Some(warning_message(label.as_str(), msg, name, location))
}

/// Whether a warning of the given category would be dropped, so that a
/// caller can spare itself the making of the message.
pub fn warning_suppressed(state: &WarningState, name: Option<&str>) -> (suppressed: bool)
    ensures
        suppressed == state@.suppressed(name_model(name)),
{
    let name = match name {
        Some(n) => n,
        None => return false,
    };
    if state.muted.contains(name) {
        return true;
    }
    match state.raised.get(name) {
        Some(raised) => *raised >= state.max,
        None => false,
    }
}

/// The lines of the closing summary: one for each category that was raised
/// beyond the cap and is not muted, in the order of their first warning.
/// The label is emphasised where the terminal settings ask for it.
pub fn print_warning_summary(state: &WarningState) -> (lines: Vec<String>)
    ensures
        exists|on: bool| texts(lines@) == summary_lines(state@.summary(), warning_label(on)),
{
    let notices = state.summary_notices();
    let label = render_warning_label();
    label_notices(&notices, label.as_str())
}

/// The lines that are written for the given notices, under the given label.
pub fn label_notices(notices: &Vec<String>, label: &str) -> (lines: Vec<String>)
    ensures
        texts(lines@) == summary_lines(texts(notices@), label@),
{
    let mut lines: Vec<String> = Vec::new();
    let mut i: usize = 0;
    while i < notices.len()
        invariant
            i <= notices.len(),
            lines@.len() == i,
            forall|j: int|
                0 <= j < i ==> lines@[j]@ == warning_text(label@, notices@[j]@, None, None, None),
        decreases notices.len() - i,
    {
        lines.push(warning_message(label, notices[i].as_str(), None, (None, None)));
        i = i + 1;
    }
    assert(texts(lines@) =~= summary_lines(texts(notices@), label@));
    lines
}

/// Gives the settings: the muted categories are replaced by the given ones,
/// and the cap is lifted where `verbose` is set. The counts stay.
pub fn init_warnings(state: &mut WarningState, muted: Vec<String>, verbose: bool)
    requires
        old(state).wf(),
    ensures
        final(state).wf(),
        final(state)@ == old(state)@.configure(text_set(muted@), verbose),
{
    let mut set = StringHashSet::new();
    let mut i: usize = 0;
    while i < muted.len()
        invariant
            i <= muted.len(),
            set@ == text_set(muted@.take(i as int)),
        decreases muted.len() - i,
    {
        set.insert(muted[i].clone());
        i = i + 1;
        proof {
            let before = muted@.take(i - 1);
            let after = muted@.take(i as int);
            assert forall|c: Seq<char>| set@.contains(c) <==> text_set(after).contains(c) by {
                if text_set(before).contains(c) {
                    let j = choose|j: int| 0 <= j < before.len() && before[j]@ == c;
                    assert(after[j]@ == c);
                }
                if c == muted@[i - 1]@ {
                    assert(after[i - 1]@ == c);
                }
                if text_set(after).contains(c) {
                    let j = choose|j: int| 0 <= j < after.len() && after[j]@ == c;
                    if j < i - 1 {
                        assert(before[j]@ == c);
                    }
                }
            }
            assert(set@ =~= text_set(after));
        }
    }
    assert(muted@.take(muted.len() as int) =~= muted@);
    state.muted = set;
    if verbose {
        state.max = u32::MAX;
    }
    assert(state@ == old(state)@.configure(text_set(muted@), verbose));
}

} // verus!
