//! The list model: ordered items, a wrapping cursor, per-item selection.

use vstd::prelude::*;
use vstd::string::StringExecFns;

verus! {

/// One entry of a selectable list: a text label and a selection flag.
pub struct SelectableItem {
    pub label: String,
    pub selected: bool,
}

impl SelectableItem {
    /// Builds an item with the given label, initially unselected.
    pub fn new(label: &str) -> (item: Self)
        ensures
            item.label@ == label@,
            !item.selected,
    {
        SelectableItem { label: String::from_str(label), selected: false }
    }
}

/// Error returned when a list is built from an empty label sequence.
#[derive(Clone, Copy, Debug, PartialEq, Eq, Structural)]
pub enum ListError {
    EmptyLabels,
}

/// An ordered, fixed-length list of items with a cursor that always stays
/// inside the list and wraps around on movement.
pub struct SelectableList {
    pub items: Vec<SelectableItem>,
    pub selected_index: usize,
}

impl SelectableList {
    /// The number of items.
    pub open spec fn spec_len(&self) -> nat {
        self.items@.len()
    }

    /// The cursor: the index of the currently highlighted item.
    pub open spec fn cursor(&self) -> int {
        self.selected_index as int
    }

    /// The labels, in item order.
    pub open spec fn labels(&self) -> Seq<Seq<char>> {
        self.items@.map(|i: int, it: SelectableItem| it.label@)
    }

    /// The selection flags, in item order.
    pub open spec fn selections(&self) -> Seq<bool> {
        self.items@.map(|i: int, it: SelectableItem| it.selected)
    }

    /// Well-formed: the list is non-empty and the cursor is in bounds.
    pub open spec fn wf(&self) -> bool {
        self.spec_len() > 0 && 0 <= self.cursor() < self.spec_len()
    }

    /// Builds a list with one item per label, all unselected, cursor at the
    /// first item. An empty label sequence is rejected.
    pub fn new(labels: Vec<&str>) -> (result: Result<Self, ListError>)
        ensures
            result is Err <==> labels@.len() == 0,
            result is Err ==> result == Result::<Self, ListError>::Err(ListError::EmptyLabels),
            result matches Ok(l) ==> {
                &&& l.wf()
                &&& l.spec_len() == labels@.len()
                &&& l.cursor() == 0
                &&& forall|i: int| 0 <= i < labels@.len() ==> l.labels()[i] == labels@[i]@
                &&& forall|i: int| 0 <= i < labels@.len() ==> !l.selections()[i]
            },
    {
        if labels.len() == 0 {
            return Err(ListError::EmptyLabels);
        }
        let mut items: Vec<SelectableItem> = Vec::new();
        let mut i: usize = 0;
        while i < labels.len()
            invariant
                i <= labels@.len(),
                items@.len() == i,
                forall|j: int| 0 <= j < i ==> items@[j].label@ == labels@[j]@,
                forall|j: int| 0 <= j < i ==> !items@[j].selected,
            decreases labels@.len() - i,
        {
            let item = SelectableItem::new(labels[i]);
            items.push(item);
            i = i + 1;
        }
        Ok(SelectableList { items, selected_index: 0 })
    }

    /// Flips the selection flag of the item under the cursor; every other
    /// item and the cursor itself stay as they were.
    pub fn toggle_selected(&mut self)
        requires
            old(self).wf(),
        ensures
            final(self).wf(),
            final(self).selected_index == old(self).selected_index,
            final(self).spec_len() == old(self).spec_len(),
            final(self).labels() == old(self).labels(),
            final(self).selections() == toggled(old(self).selections(), old(self).cursor()),
    {
        let i = self.selected_index;
        let cur = self.items[i].selected;
        self.items[i].selected = !cur;
        proof {
            assert(self.labels() =~= old(self).labels());
            assert(self.selections() =~= toggled(old(self).selections(), old(self).cursor()));
        }
    }

    /// Moves the cursor by `offset`, wrapping modulo the length; the offset
    /// is taken with the mathematical (non-negative) modulo, so moving by a
    /// negative amount wraps to the end of the list.
    pub fn move_selection(&mut self, offset: i32)
        requires
            old(self).wf(),
        ensures
            final(self).wf(),
            final(self).items@ == old(self).items@,
            final(self).cursor() == (old(self).cursor() + offset) % (old(self).spec_len() as int),
    {
        let len = self.items.len();
        let c = self.selected_index;
        proof {
            vstd::arithmetic::div_mod::lemma_small_mod(c as nat, len as nat);
        }
        if offset >= 0 {
            let step = (offset as usize) % len;
            if c >= len - step {
                self.selected_index = c - (len - step);
            } else {
                self.selected_index = c + step;
            }
            proof {
                let n = len as int;
                let c0 = c as int;
                let off = offset as int;
                vstd::arithmetic::div_mod::lemma_add_mod_noop_right(c0, off, n);
                if c0 + off % n >= n {
                    vstd::arithmetic::div_mod::lemma_mod_sub_multiples_vanish(c0 + off % n, n);
                    vstd::arithmetic::div_mod::lemma_small_mod((c0 + off % n - n) as nat, n as nat);
                } else {
                    vstd::arithmetic::div_mod::lemma_small_mod((c0 + off % n) as nat, n as nat);
                }
            }
        } else {
            let neg = (-(offset as i64)) as usize;
            let step = neg % len;
            if c >= step {
                self.selected_index = c - step;
            } else {
                self.selected_index = len - (step - c);
            }
            proof {
                let n = len as int;
                let c0 = c as int;
                let off = offset as int;
                assert(neg == -off);
                vstd::arithmetic::div_mod::lemma_sub_mod_noop_right(c0, -off, n);
                if c0 - (-off) % n < 0 {
                    vstd::arithmetic::div_mod::lemma_mod_add_multiples_vanish(c0 - (-off) % n, n);
                    vstd::arithmetic::div_mod::lemma_small_mod((c0 - (-off) % n + n) as nat, n as nat);
                } else {
                    vstd::arithmetic::div_mod::lemma_small_mod((c0 - (-off) % n) as nat, n as nat);
                }
            }
        }
    }
}

/// The selection flags after flipping entry `i` of `s`.
pub open spec fn toggled(s: Seq<bool>, i: int) -> Seq<bool> {
    s.update(i, !s[i])
}

/// Law: moving the cursor by `k` and then by `-k` restores it. The two
/// nested `%` terms are the cursor values that `move_selection` produces
/// for the offsets `k` and `-k`.
pub proof fn lemma_move_round_trip(list: SelectableList, k: int)
    requires
        list.wf(),
    ensures
        ((list.cursor() + k) % (list.spec_len() as int) + (-k)) % (list.spec_len() as int)
            == list.cursor(),
{
    let n = list.spec_len() as int;
    let c = list.cursor();
    vstd::arithmetic::div_mod::lemma_sub_mod_noop_right((c + k) % n, k, n);
    vstd::arithmetic::div_mod::lemma_sub_mod_noop(c + k, k, n);
    vstd::arithmetic::div_mod::lemma_small_mod(c as nat, n as nat);
}

/// The cursor after `k` forward moves of one step each, on a list of
/// length `n`, starting from cursor `c`.
pub open spec fn cursor_after_forward_moves(c: int, n: int, k: nat) -> int
    decreases k,
{
    if k == 0 {
        c
    } else {
        (cursor_after_forward_moves(c, n, (k - 1) as nat) + 1) % n
    }
}

/// The cursor after any number of forward moves is `(c + k) % n`.
proof fn lemma_forward_moves_formula(c: int, n: int, k: nat)
    requires
        0 <= c < n,
        k >= 1,
    ensures
        cursor_after_forward_moves(c, n, k) == (c + k) % n,
    decreases k,
{
    if k == 1 {
        assert(cursor_after_forward_moves(c, n, 0) == c);
        assert(cursor_after_forward_moves(c, n, 1)
            == (cursor_after_forward_moves(c, n, 0) + 1) % n);
    } else {
        lemma_forward_moves_formula(c, n, (k - 1) as nat);
        vstd::arithmetic::div_mod::lemma_add_mod_noop_right(1, c + (k - 1), n);
    }
}

/// Law: one-step forward moves never take the cursor outside `[0, n)`, and
/// `n` of them in a row return it to where it started.
pub proof fn lemma_forward_moves_cycle(list: SelectableList)
    requires
        list.wf(),
    ensures
        forall|j: nat| j <= list.spec_len()
            ==> 0 <= #[trigger] cursor_after_forward_moves(
                list.cursor(), list.spec_len() as int, j) < list.spec_len(),
        cursor_after_forward_moves(list.cursor(), list.spec_len() as int, list.spec_len())
            == list.cursor(),
{
    let n = list.spec_len() as int;
    let c = list.cursor();
    assert forall|j: nat| j <= list.spec_len()
        implies 0 <= #[trigger] cursor_after_forward_moves(c, n, j) < n by {
        if j > 0 {
            vstd::arithmetic::div_mod::lemma_mod_division_less_than_divisor(
                cursor_after_forward_moves(c, n, (j - 1) as nat) + 1, n);
        }
    }
    lemma_forward_moves_formula(c, n, list.spec_len());
    vstd::arithmetic::div_mod::lemma_mod_add_multiples_vanish(c, n);
    vstd::arithmetic::div_mod::lemma_small_mod(c as nat, n as nat);
}

/// Law: toggling is its own inverse, and it touches only the entry it
/// flips: every other entry keeps its value.
pub proof fn lemma_toggle_involution(s: Seq<bool>, i: int)
    requires
        0 <= i < s.len(),
    ensures
        toggled(toggled(s, i), i) == s,
        toggled(s, i).len() == s.len(),
        toggled(s, i)[i] == !s[i],
        forall|j: int| 0 <= j < s.len() && j != i ==> toggled(s, i)[j] == s[j],
{
    assert(toggled(toggled(s, i), i) =~= s);
}

} // verus!
