use vstd::prelude::*;

use crate::model::{Size, TerminalProgram, Transition};
use crate::text::{all_ascii, ascii_lower, contains_sub, lowercase_of, str_contains, to_lowercase};

verus! {

/// What the launcher's text input reports.
pub enum LaunchMessage {
    /// The search text is now this string.
    CommandChanged(String),
}

impl LaunchMessage {
    /// The search text that the message carries.
    pub open spec fn text(self) -> Seq<char> {
        match self {
            LaunchMessage::CommandChanged(c) => c@,
        }
    }
}

/// A key press, as far as the launcher tells keys apart.
#[derive(Clone, Copy, Debug, PartialEq, Eq, Structural)]
pub enum KeyPress {
    ArrowDown,
    ArrowUp,
    Enter,
    /// Any other key, or a keyboard event that is not a press.
    Other,
}

/// One entry of the launcher: the name shown and the state it opens.
pub struct LaunchOption {
    pub name: String,
    pub target: Transition,
}

/// An entry by its name's characters and its target.
pub type OptionView = (Seq<char>, Transition);

/// A list of entries by their views.
pub open spec fn list_view(list: Seq<LaunchOption>) -> Seq<OptionView> {
    list.map_values(|o: LaunchOption| (o.name@, o.target))
}

/// The launcher's table, in the order of its names.
pub open spec fn spec_options() -> Seq<OptionView> {
    seq![
        ("Bluetooth"@, Transition::ToTerminal(TerminalProgram::Bluetui)),
        ("Power"@, Transition::ToBase),
        ("Wifi"@, Transition::ToTerminal(TerminalProgram::Impala)),
    ]
}

/// An entry is listed for a search text when its lowercased name contains the text.
pub open spec fn option_matches(name: Seq<char>, command: Seq<char>) -> bool {
    contains_sub(lowercase_of(name), command)
}

/// The entries that a search text lists, in table order.
pub open spec fn filter_options(command: Seq<char>) -> Seq<OptionView> {
    spec_options().filter(|o: OptionView| option_matches(o.0, command))
}

/// A selection fits a list of `len` entries: it points into a non-empty list,
/// and is 0 for an empty one.
pub open spec fn selection_fits(selection: int, len: int) -> bool {
    &&& len == 0 ==> selection == 0
    &&& len > 0 ==> 0 <= selection < len
}

/// The selection that a new search keeps: no further than the last entry,
/// and no further than the seventh row.
pub open spec fn clamp_selection(selection: int, len: int) -> int {
    let max = if len == 0 {
        0
    } else {
        len - 1
    };
    let bound = if max < 6 {
        max
    } else {
        6
    };
    if selection < bound {
        selection
    } else {
        bound
    }
}

/// The selection after the down arrow: one row further, wrapping after the
/// last entry or after the seventh row.
pub open spec fn select_down(selection: int, len: int) -> int {
    let max = if len == 0 {
        1
    } else {
        len
    };
    let rows = if max < 7 {
        max
    } else {
        7
    };
    (selection + 1) % rows
}

/// The selection after the up arrow: one row back, wrapping to the last entry.
pub open spec fn select_up(selection: int, len: int) -> int {
    if selection == 0 {
        if len == 0 {
            0
        } else {
            len - 1
        }
    } else {
        selection - 1
    }
}

/// The launcher's size for a list of `len` entries: a row of 55 pixels per
/// entry under the 75 pixels of the search field (held at the largest `u32`
/// for a list too long to measure in it, as a float height converts).
pub open spec fn launch_size(len: int) -> Size {
    let height = len * 55 + 75;
    Size {
        width: 400,
        height: if height <= u32::MAX {
            height as u32
        } else {
            u32::MAX
        },
    }
}

/// Every entry of a sequence passes the predicate: the filter keeps it whole.
proof fn lemma_filter_keeps_all(s: Seq<OptionView>, pred: spec_fn(OptionView) -> bool)
    requires
        forall|i: int| 0 <= i < s.len() ==> pred(#[trigger] s[i]),
    ensures
        s.filter(pred) == s,
    decreases s.len(),
{
    reveal_with_fuel(Seq::<_>::filter, 1);
    if s.len() > 0 {
        lemma_filter_keeps_all(s.drop_last(), pred);
        assert(s.drop_last().push(s.last()) =~= s);
    }
}

/// The empty text occurs in every string.
pub proof fn lemma_empty_occurs(s: Seq<char>)
    ensures
        contains_sub(s, Seq::<char>::empty()),
{
    assert(s.subrange(0, 0int + Seq::<char>::empty().len()) =~= Seq::<char>::empty());
}

/// An empty search lists the whole table.
pub proof fn lemma_empty_search_lists_all()
    ensures
        filter_options(Seq::<char>::empty()) == spec_options(),
{
    let pred = |o: OptionView| option_matches(o.0, Seq::<char>::empty());
    assert forall|i: int| 0 <= i < spec_options().len() implies pred(
        #[trigger] spec_options()[i],
    ) by {
        lemma_empty_occurs(lowercase_of(spec_options()[i].0));
    }
    lemma_filter_keeps_all(spec_options(), pred);
}

/// Stepping one row down inside a list of `len` rows wraps only after the last row.
proof fn lemma_step_mod(selection: int, len: int)
    requires
        0 < len,
        0 <= selection < len,
    ensures
        (selection + 1) % len == (if selection + 1 < len {
            selection + 1
        } else {
            0
        }),
{
    if selection + 1 < len {
        vstd::arithmetic::div_mod::lemma_small_mod((selection + 1) as nat, len as nat);
    } else {
        vstd::arithmetic::div_mod::lemma_mod_self_0(len);
    }
}

/// Up undoes down: on a list of one to seven entries, pressing the down arrow
/// and then the up arrow gives back the selection.
pub proof fn lemma_up_undoes_down(selection: int, len: int)
    requires
        0 < len <= 7,
        0 <= selection < len,
    ensures
        select_up(select_down(selection, len), len) == selection,
{
    lemma_step_mod(selection, len);
}

/// Down undoes up: on a list of one to seven entries, pressing the up arrow
/// and then the down arrow gives back the selection.
pub proof fn lemma_down_undoes_up(selection: int, len: int)
    requires
        0 < len <= 7,
        0 <= selection < len,
    ensures
        select_down(select_up(selection, len), len) == selection,
{
    lemma_step_mod(select_up(selection, len), len);
}

/// A new search never selects beyond the seventh row, and its selection fits
/// the new list.
pub proof fn lemma_clamp_fits(selection: int, len: int)
    requires
        0 <= selection,
        0 <= len,
    ensures
        clamp_selection(selection, len) <= 6,
        selection_fits(clamp_selection(selection, len), len),
{
}

/// Text contained in a longer text is contained wherever the longer one is.
pub proof fn lemma_contains_sub_transitive(h: Seq<char>, mid: Seq<char>, n: Seq<char>)
    requires
        contains_sub(h, mid),
        contains_sub(mid, n),
    ensures
        contains_sub(h, n),
{
    let i = choose|i: int|
        0 <= i && i + mid.len() <= h.len() && #[trigger] h.subrange(i, i + mid.len()) == mid;
    let j = choose|j: int|
        0 <= j && j + n.len() <= mid.len() && #[trigger] mid.subrange(j, j + n.len()) == n;
    assert(h.subrange(i + j, i + j + n.len()) =~= n);
}

/// Typing more never lists more: every entry that a search lists is also
/// listed by any text that the search contains (a prefix, for one).
pub proof fn lemma_narrowing_search(shorter: Seq<char>, longer: Seq<char>, entry: OptionView)
    requires
        contains_sub(longer, shorter),
        filter_options(longer).contains(entry),
    ensures
        filter_options(shorter).contains(entry),
{
    let p_long = |o: OptionView| option_matches(o.0, longer);
    let p_short = |o: OptionView| option_matches(o.0, shorter);
    spec_options().lemma_filter_contains_rev(p_long, entry);
    let m = choose|m: int|
        0 <= m < spec_options().filter(p_long).len() && spec_options().filter(p_long)[m] == entry;
    spec_options().lemma_filter_pred(p_long, m);
    lemma_contains_sub_transitive(lowercase_of(entry.0), longer, shorter);
    let k = choose|k: int| 0 <= k < spec_options().len() && spec_options()[k] == entry;
    assert(p_short(spec_options()[k]));
    spec_options().lemma_filter_contains(p_short, k);
}

/// `a` comes strictly before `b` in the order of their characters: at the
/// first position where they differ `a` has the smaller character, or `a`
/// is a proper prefix of `b`.
pub open spec fn lex_less(a: Seq<char>, b: Seq<char>) -> bool {
    exists|k: int|
        0 <= k <= a.len() && k <= b.len() && #[trigger] a.take(k) == b.take(k) && (
        (k == a.len() && k < b.len()) || (k < a.len() && k < b.len() && (a[k] as u32) < (
        b[k] as u32)))
}

/// The table is keyed by name as the ordered map it stands for: its names are
/// distinct and strictly ascending.
pub proof fn lemma_options_ascending()
    ensures
        forall|i: int, j: int|
            0 <= i < j < spec_options().len() ==> lex_less(
                #[trigger] spec_options()[i].0,
                #[trigger] spec_options()[j].0,
            ) && spec_options()[i].0 != spec_options()[j].0,
{
    reveal_strlit("Bluetooth");
    reveal_strlit("Power");
    reveal_strlit("Wifi");
    let o = spec_options();
    assert forall|i: int, j: int| 0 <= i < j < o.len() implies lex_less(
        #[trigger] o[i].0,
        #[trigger] o[j].0,
    ) && o[i].0 != o[j].0 by {
        assert(o[i].0.take(0) =~= o[j].0.take(0));
        assert(o[i].0[0] != o[j].0[0]);
    }
}

/// The launcher's table.
pub fn options() -> (res: Vec<LaunchOption>)
    ensures
        list_view(res@) == spec_options(),
{
    let mut res: Vec<LaunchOption> = Vec::new();
    res.push(
        LaunchOption {
            name: String::from_str("Bluetooth"),
            target: Transition::ToTerminal(TerminalProgram::Bluetui),
        },
    );
    res.push(LaunchOption { name: String::from_str("Power"), target: Transition::ToBase });
    res.push(
        LaunchOption {
            name: String::from_str("Wifi"),
            target: Transition::ToTerminal(TerminalProgram::Impala),
        },
    );
    assert(list_view(res@) =~= spec_options());
    res
}

/// The table's names are ASCII, so lowering them only turns capitals into
/// small letters.
pub open spec fn table_lowered() -> bool {
    forall|i: int|
        0 <= i < spec_options().len() ==> lowercase_of(#[trigger] spec_options()[i].0)
            == spec_options()[i].0.map_values(|c: char| ascii_lower(c))
}

/// Every name of the table is ASCII.
pub proof fn lemma_table_ascii()
    ensures
        forall|i: int| 0 <= i < spec_options().len() ==> all_ascii(#[trigger] spec_options()[i].0),
{
    reveal_strlit("Bluetooth");
    reveal_strlit("Power");
    reveal_strlit("Wifi");
}

/// The entries of the table that a search text lists, in table order; the
/// names were lowered ASCII-wise.
pub fn matching_options(command: &str) -> (res: Vec<LaunchOption>)
    ensures
        list_view(res@) == filter_options(command@),
        table_lowered(),
{
    proof {
        lemma_table_ascii();
    }
    let all = options();
    let mut res: Vec<LaunchOption> = Vec::new();
    let ghost pred = |o: OptionView| option_matches(o.0, command@);
    let n = all.len();
    for i in 0..n
        invariant
            n == all@.len(),
            list_view(all@) == spec_options(),
            pred == (|o: OptionView| option_matches(o.0, command@)),
            list_view(res@) == spec_options().take(i as int).filter(pred),
            forall|j: int| 0 <= j < spec_options().len() ==> all_ascii(#[trigger] spec_options()[j].0),
            forall|j: int|
                0 <= j < i ==> lowercase_of(#[trigger] spec_options()[j].0)
                    == spec_options()[j].0.map_values(|c: char| ascii_lower(c)),
    {
        proof {
            reveal(Seq::filter);
        }
        let ghost before = res@;
        let ghost x = spec_options()[i as int];
        assert(list_view(all@)[i as int] == (all@[i as int].name@, all@[i as int].target));
        assert(spec_options().take(i + 1).drop_last() =~= spec_options().take(i as int));
        assert(spec_options().take(i + 1).last() == x);
        let lowered = to_lowercase(all[i].name.as_str());
        if str_contains(lowered.as_str(), command) {
            let name = all[i].name.clone();
            res.push(LaunchOption { name, target: all[i].target });
            assert(list_view(res@) =~= list_view(before).push(x));
            assert(pred(x));
        } else {
            assert(!pred(x));
        }
    }
    assert(spec_options().take(n as int) =~= spec_options());
    res
}

/// `after` is `before` once the search text became `text`: the list is what
/// `text` matches, the selection is pulled back onto it, and the launcher is
/// well formed.
pub open spec fn updated_by_search(before: Launch, after: Launch, text: Seq<char>) -> bool {
    &&& after.command@ == text
    &&& after.list() == filter_options(text)
    &&& after.selection == clamp_selection(before.selection as int, after.list().len() as int)
    &&& after.wf()
}

/// `after` and `answer` are what the key `key` makes of `before`: the search
/// text and the list stay; the arrows move the selection; Enter keeps it and
/// answers the selected entry's target when the list is not empty.
pub open spec fn after_key(before: Launch, after: Launch, key: KeyPress, answer: Option<Transition>) -> bool {
    let len = before.list().len() as int;
    let sel = before.selection as int;
    &&& after.command@ == before.command@
    &&& after.list() == before.list()
    &&& after.selection == match key {
        KeyPress::ArrowDown => select_down(sel, len),
        KeyPress::ArrowUp => select_up(sel, len),
        _ => sel,
    }
    &&& answer == match key {
        KeyPress::Enter => if len > 0 {
            Some(before.list()[sel].1)
        } else {
            None
        },
        _ => None,
    }
}

/// The launcher: a search text, the entries it lists, and the selected row.
pub struct Launch {
    pub command: String,
    pub current_list: Vec<LaunchOption>,
    pub selection: usize,
}

impl Launch {
    /// The listed entries by their views.
    pub open spec fn list(&self) -> Seq<OptionView> {
        list_view(self.current_list@)
    }

    /// The launcher lists exactly what its search text matches, and its
    /// selection fits that list.
    pub open spec fn wf(&self) -> bool {
        &&& self.list() == filter_options(self.command@)
        &&& selection_fits(self.selection as int, self.list().len() as int)
    }

    /// The key can be handled without overflow or an index out of the list:
    /// the down arrow needs room to count one further, Enter a selection
    /// inside a non-empty list.
    pub open spec fn key_allowed(&self, key: KeyPress) -> bool {
        &&& key == KeyPress::ArrowDown ==> self.selection < usize::MAX
        &&& key == KeyPress::Enter && self.current_list@.len() > 0 ==> self.selection
            < self.current_list@.len()
    }

    /// A fresh launcher: empty search text, the whole table, the first row selected.
    pub fn new() -> (res: Launch)
        ensures
            res.command@ == Seq::<char>::empty(),
            res.list() == spec_options(),
            res.selection == 0,
            res.wf(),
    {
        let res = Launch { command: String::new(), current_list: options(), selection: 0 };
        proof {
            lemma_empty_search_lists_all();
        }
        res
    }

    /// The size the launcher wants for its current list.
    pub fn get_desired_size(&self) -> (res: Size)
        ensures
            res == launch_size(self.current_list@.len() as int),
    {
        let len = self.current_list.len();
        if len > (u32::MAX as usize - 75) / 55 {
            Size { width: 400, height: u32::MAX }
        } else {
            let rows = len as u32;
            Size { width: 400, height: rows * 55 + 75 }
        }
    }

    /// A new search text: the list becomes the entries it matches, the
    /// selection is pulled back onto that list (and onto the first seven rows),
    /// and the size that the new list wants is returned.
    pub fn update(&mut self, message: LaunchMessage) -> (res: Size)
        ensures
            updated_by_search(*old(self), *final(self), message.text()),
            table_lowered(),
            res == launch_size(final(self).list().len() as int),
            final(self).current_list@.len() <= 3,
    {
        match message {
            LaunchMessage::CommandChanged(command) => {
                self.current_list = matching_options(command.as_str());
                proof {
                    spec_options().lemma_filter_len(
                        |o: OptionView| option_matches(o.0, command@),
                    );
                }
                let max = if self.current_list.len() == 0 {
                    0
                } else {
                    self.current_list.len() - 1
                };
                self.selection = self.selection.min(max.min(6));
                self.command = command;
                self.get_desired_size()
            },
        }
    }
    /// A key press: the arrows move the selection (wrapping), Enter asks for
    /// the selected entry's state; nothing else changes.
    pub fn key_event(&mut self, key: KeyPress) -> (res: Option<Transition>)
        requires
            old(self).key_allowed(key),
        ensures
            after_key(*old(self), *final(self), key, res),
            old(self).wf() ==> final(self).wf(),
    {
        let ghost len = self.list().len();
        assert(self.current_list@.len() == len);
        match key {
            KeyPress::ArrowDown => {
                let max = if self.current_list.len() == 0 {
                    1
                } else {
                    self.current_list.len()
                };
                self.selection += 1;
                self.selection %= max.min(7);
                None
            },
            KeyPress::ArrowUp => {
                self.selection = if self.selection == 0 {
                    if self.current_list.len() == 0 {
                        0
                    } else {
                        self.current_list.len() - 1
                    }
                } else {
                    self.selection - 1
                };
                None
            },
            KeyPress::Enter => {
                if self.current_list.len() > 0 {
                    Some(self.current_list[self.selection].target)
                } else {
                    None
                }
            },
            KeyPress::Other => None,
        }
    }

    /// The names drawn in the list: the first seven entries.
    pub fn visible_names(&self) -> (res: Vec<String>)
        ensures
            res@.len() == (if self.list().len() < 7 {
                self.list().len()
            } else {
                7
            }),
            forall|i: int| 0 <= i < res@.len() ==> #[trigger] res@[i]@ == self.list()[i].0,
    {
        let mut res: Vec<String> = Vec::new();
        let n = if self.current_list.len() < 7 {
            self.current_list.len()
        } else {
            7
        };
        for i in 0..n
            invariant
                n <= self.current_list@.len(),
                res@.len() == i,
                forall|j: int| 0 <= j < i ==> #[trigger] res@[j]@ == self.list()[j].0,
        {
            res.push(self.current_list[i].name.clone());
        }
        res
    }
}

/// A search keeps a selection that still fits: when the old selection is a
/// row of the new list and within the first seven rows it stays; otherwise
/// it moves to the last reachable row (the last entry, or the seventh row),
/// and to 0 on an empty list.
pub proof fn lemma_search_keeps_fitting_selection(before: Launch, after: Launch, text: Seq<char>)
    requires
        updated_by_search(before, after, text),
    ensures
        (before.selection < after.list().len() && before.selection <= 6) ==> after.selection
            == before.selection,
        !(before.selection < after.list().len() && before.selection <= 6) && after.list().len()
            > 0 ==> after.selection == (if after.list().len() - 1 < 6 {
            after.list().len() - 1
        } else {
            6
        }),
        after.list().len() == 0 ==> after.selection == 0,
{
}

/// The arrows move the selection one row, wrapping around the list, whatever
/// the search text: on a list of one to seven rows, down gives
/// `(selection + 1) % len` and up gives `(selection + len - 1) % len`; the
/// search text and the list stay, and no state is asked for.
pub proof fn lemma_arrows_step_one_row(
    before: Launch,
    after: Launch,
    key: KeyPress,
    answer: Option<Transition>,
)
    requires
        after_key(before, after, key, answer),
        0 < before.list().len() <= 7,
        before.selection < before.list().len(),
    ensures
        key == KeyPress::ArrowDown ==> after.selection as int == (before.selection as int + 1)
            % (before.list().len() as int),
        key == KeyPress::ArrowUp ==> after.selection as int == (before.selection as int
            + before.list().len() as int - 1) % (before.list().len() as int),
        key == KeyPress::ArrowDown || key == KeyPress::ArrowUp ==> answer is None
            && after.command@ == before.command@ && after.list() == before.list(),
{
    let len = before.list().len() as int;
    let sel = before.selection as int;
    lemma_step_mod(sel, len);
    if sel == 0 {
        vstd::arithmetic::div_mod::lemma_small_mod((len - 1) as nat, len as nat);
    } else {
        vstd::arithmetic::div_mod::lemma_mod_add_multiples_vanish(sel - 1, len);
        vstd::arithmetic::div_mod::lemma_small_mod((sel - 1) as nat, len as nat);
    }
}

/// Enter opens the highlighted row, whatever the search text: on a
/// non-empty list it answers the target of the selected entry, and keeps the
/// launcher as it is; on an empty list it answers nothing.
pub proof fn lemma_enter_opens_selected(before: Launch, after: Launch, answer: Option<Transition>)
    requires
        after_key(before, after, KeyPress::Enter, answer),
        before.selection < before.list().len() || before.list().len() == 0,
    ensures
        before.list().len() > 0 ==> answer == Some(before.list()[before.selection as int].1),
        before.list().len() == 0 ==> answer is None,
        after.selection == before.selection,
        after.list() == before.list(),
        after.command@ == before.command@,
{
}

} // verus!
