use crate::bridge::{ConversionError, ScriptConvert, ScriptVal, ScriptValue};
use vstd::prelude::*;

verus! {

/// The dynamic borrow state of one cell.
#[derive(Debug, Clone, Copy, PartialEq, Eq, Structural)]
pub enum BorrowState {
    Free,
    /// Read borrows are outstanding; the count of them.
    Reading(usize),
    Writing,
}

/// A borrow that conflicts with one already outstanding on the cell.
#[derive(Debug, Clone, Copy, PartialEq, Eq)]
pub struct BorrowConflict;

/// Why `set` left a cell as it was.
#[derive(Debug, Clone, Copy, PartialEq, Eq, Structural)]
pub enum CellError {
    /// The script value does not convert to the cell's type.
    Conversion,
    /// A borrow of the cell is outstanding.
    BorrowConflict,
}

/// The model of one cell: its value, how many handles hold it, and its
/// borrows. The value is gone once the last holder has let go of the cell.
pub struct CellState<V> {
    pub value: Option<V>,
    pub holders: nat,
    pub borrow: BorrowState,
}

struct Slot<T> {
    value: Option<T>,
    holders: usize,
    borrow: BorrowState,
}

/// The storage of every shared cell of one value type. A cell lives while
/// some handle holds it; its index is never reused.
pub struct CellStore<T> {
    slots: Vec<Slot<T>>,
}

/// A handle of a shared cell: a share of ownership of the cell at `id`.
pub struct Ref<T> {
    id: usize,
    kind: core::marker::PhantomData<T>,
}

pub open spec fn live<V>(cells: Seq<CellState<V>>, id: int) -> bool {
    0 <= id < cells.len() && cells[id].holders > 0 && cells[id].value is Some
}

/// The cell after one holder lets go of it: with the last holder the value
/// goes too.
pub open spec fn let_go<V>(c: CellState<V>) -> CellState<V> {
    CellState {
        value: if c.holders <= 1 {
            None
        } else {
            c.value
        },
        holders: (c.holders - 1) as nat,
        borrow: c.borrow,
    }
}

/// The state after a borrow is given back.
pub open spec fn released(b: BorrowState) -> BorrowState {
    match b {
        BorrowState::Reading(n) => if n > 1 {
            BorrowState::Reading((n - 1) as usize)
        } else {
            BorrowState::Free
        },
        _ => BorrowState::Free,
    }
}

pub open spec fn with_borrow<V>(cells: Seq<CellState<V>>, id: int, b: BorrowState) -> Seq<
    CellState<V>,
> {
    cells.update(id, CellState { borrow: b, ..cells[id] })
}

/// A read borrow: refused while the cell is written.
pub open spec fn read_borrow<V>(cells: Seq<CellState<V>>, id: int) -> (Seq<CellState<V>>, Result<(), BorrowConflict>) {
    match cells[id].borrow {
        BorrowState::Writing => (cells, Err(BorrowConflict)),
        BorrowState::Reading(n) => (with_borrow(cells, id, BorrowState::Reading((n + 1) as usize)), Ok(())),
        BorrowState::Free => (with_borrow(cells, id, BorrowState::Reading(1)), Ok(())),
    }
}

/// A write borrow: granted only while no other borrow is outstanding.
pub open spec fn write_borrow<V>(cells: Seq<CellState<V>>, id: int) -> (Seq<CellState<V>>, Result<(), BorrowConflict>) {
    if cells[id].borrow == BorrowState::Free {
        (with_borrow(cells, id, BorrowState::Writing), Ok(()))
    } else {
        (cells, Err(BorrowConflict))
    }
}

/// What `get` returns: the cell's value as a script value, unless it is written.
pub open spec fn read_value<T: ScriptConvert>(cells: Seq<CellState<T::V>>, id: int) -> Result<ScriptVal, BorrowConflict> {
    if cells[id].borrow == BorrowState::Writing {
        Err(BorrowConflict)
    } else {
        Ok(T::script_of(cells[id].value.unwrap()))
    }
}

/// What `set` does: convert first, then overwrite under a write borrow.
pub open spec fn write_value<T: ScriptConvert>(cells: Seq<CellState<T::V>>, id: int, s: ScriptVal) -> (Seq<CellState<T::V>>, Result<(), CellError>) {
    match T::from_script(s) {
        None => (cells, Err(CellError::Conversion)),
        Some(v) => if cells[id].borrow == BorrowState::Free {
            (cells.update(id, CellState { value: Some(v), ..cells[id] }), Ok(()))
        } else {
            (cells, Err(CellError::BorrowConflict))
        },
    }
}

impl<T: View> View for CellStore<T> {
    type V = Seq<CellState<T::V>>;

    closed spec fn view(&self) -> Seq<CellState<T::V>> {
        self.slots@.map_values(|s: Slot<T>| CellState {
            value: match s.value {
                Some(v) => Some(v@),
                None => None,
            },
            holders: s.holders as nat,
            borrow: s.borrow,
        })
    }
}

impl<T: View> CellStore<T> {
    pub fn new() -> (r: CellStore<T>)
        ensures
            r@ == Seq::<CellState<T::V>>::empty(),
    {
        CellStore { slots: Vec::new() }
    }

    fn set_borrow(&mut self, id: usize, b: BorrowState)
        requires
            id < old(self)@.len(),
        ensures
            final(self)@ == with_borrow(old(self)@, id as int, b),
    {
        self.slots[id].borrow = b;
        assert(self@ =~= with_borrow(old(self)@, id as int, b));
    }

    /// How many handles hold the cell at `id`; zero for an index with no cell.
    pub fn holders(&self, id: usize) -> (r: usize)
        ensures
            id < self@.len() ==> r == self@[id as int].holders,
            id >= self@.len() ==> r == 0,
    {
        if id < self.slots.len() {
            self.slots[id].holders
        } else {
            0
        }
    }

    /// The borrow state of the cell at `id`.
    pub fn borrow_state(&self, id: usize) -> (r: BorrowState)
        requires
            id < self@.len(),
        ensures
            r == self@[id as int].borrow,
    {
        self.slots[id].borrow
    }
}

impl<T: View> Ref<T> {
    pub closed spec fn id(&self) -> int {
        self.id as int
    }

    /// Whether the cell this handle holds lives in `cells`.
    pub open spec fn valid(&self, cells: Seq<CellState<T::V>>) -> bool {
        live(cells, self.id())
    }

    /// Creates a cell holding `val`, with this handle as its one holder.
    pub fn new(store: &mut CellStore<T>, val: T) -> (r: Ref<T>)
        ensures
            r.id() == old(store)@.len(),
            final(store)@ == old(store)@.push(
                CellState { value: Some(val@), holders: 1, borrow: BorrowState::Free },
            ),
    {
        let id = store.slots.len();
        store.slots.push(Slot { value: Some(val), holders: 1, borrow: BorrowState::Free });
        proof {
            assert(store@ =~= old(store)@.push(
                CellState { value: Some(val@), holders: 1, borrow: BorrowState::Free },
            ));
        }
        Ref { id, kind: core::marker::PhantomData }
    }

    /// The index of the cell in its store.
    pub fn index(&self) -> (r: usize)
        ensures
            r == self.id(),
    {
        self.id
    }

    /// A second handle of the same cell; the value is not copied.
    pub fn share(&self, store: &mut CellStore<T>) -> (r: Ref<T>)
        requires
            self.valid(old(store)@),
            old(store)@[self.id()].holders < usize::MAX,
        ensures
            r.id() == self.id(),
            final(store)@ == old(store)@.update(
                self.id(),
                CellState { holders: old(store)@[self.id()].holders + 1, ..old(store)@[self.id()] },
            ),
    {
        store.slots[self.id].holders = store.slots[self.id].holders + 1;
        proof {
            assert(store@ =~= old(store)@.update(
                self.id(),
                CellState { holders: old(store)@[self.id()].holders + 1, ..old(store)@[self.id()] },
            ));
        }
        Ref { id: self.id, kind: core::marker::PhantomData }
    }

    /// Gives up this handle; the cell and its value die with its last holder.
    pub fn release(self, store: &mut CellStore<T>)
        requires
            self.valid(old(store)@),
        ensures
            final(store)@ == old(store)@.update(self.id(), let_go(old(store)@[self.id()])),
    {
        let holders = store.slots[self.id].holders - 1;
        store.slots[self.id].holders = holders;
        if holders == 0 {
            store.slots[self.id].value = None;
        }
        proof {
            assert(store@ =~= old(store)@.update(self.id(), let_go(old(store)@[self.id()])));
        }
    }

    /// Takes a read borrow of the cell.
    pub fn ref_(&self, store: &mut CellStore<T>) -> (r: Result<(), BorrowConflict>)
        requires
            self.valid(old(store)@),
            old(store)@[self.id()].borrow matches BorrowState::Reading(n) ==> n < usize::MAX,
        ensures
            (final(store)@, r) == read_borrow(old(store)@, self.id()),
    {
        match store.slots[self.id].borrow {
            BorrowState::Writing => Err(BorrowConflict),
            BorrowState::Reading(n) => {
                store.set_borrow(self.id, BorrowState::Reading(n + 1));
                Ok(())
            },
            BorrowState::Free => {
                store.set_borrow(self.id, BorrowState::Reading(1));
                Ok(())
            },
        }
    }

    /// Takes the write borrow of the cell.
    pub fn mut_(&self, store: &mut CellStore<T>) -> (r: Result<(), BorrowConflict>)
        requires
            self.valid(old(store)@),
        ensures
            (final(store)@, r) == write_borrow(old(store)@, self.id()),
    {
        if store.slots[self.id].borrow == BorrowState::Free {
            store.set_borrow(self.id, BorrowState::Writing);
            Ok(())
        } else {
            Err(BorrowConflict)
        }
    }

    /// Gives back one borrow of the cell.
    pub fn end_borrow(&self, store: &mut CellStore<T>)
        requires
            self.valid(old(store)@),
            old(store)@[self.id()].borrow != BorrowState::Free,
        ensures
            final(store)@ == with_borrow(old(store)@, self.id(), released(old(store)@[self.id()].borrow)),
    {
        let b = match store.slots[self.id].borrow {
            BorrowState::Reading(n) => if n > 1 {
                BorrowState::Reading(n - 1)
            } else {
                BorrowState::Free
            },
            _ => BorrowState::Free,
        };
        store.set_borrow(self.id, b);
    }
}

impl<T: ScriptConvert> Ref<T> {
    /// The cell's value as a script value. The read borrow this takes is
    /// given back before the call returns.
    pub fn get(&self, store: &CellStore<T>) -> (r: Result<ScriptValue, BorrowConflict>)
        requires
            self.valid(store@),
        ensures
            match r {
                Ok(v) => read_value::<T>(store@, self.id()) == Ok::<ScriptVal, BorrowConflict>(v@),
                Err(e) => read_value::<T>(store@, self.id()) == Err::<ScriptVal, BorrowConflict>(e),
            },
    {
        if store.slots[self.id].borrow == BorrowState::Writing {
            Err(BorrowConflict)
        } else {
            match &store.slots[self.id].value {
                Some(v) => Ok(v.push()),
                None => {
                    proof {
                        assert(store@[self.id()].value is Some);
                    }
                    Err(BorrowConflict)
                },
            }
        }
    }

    /// Converts `v` and, if that succeeds and no borrow is outstanding,
    /// stores it in the cell.
    pub fn set(&self, store: &mut CellStore<T>, v: &ScriptValue) -> (r: Result<(), CellError>)
        requires
            self.valid(old(store)@),
        ensures
            (final(store)@, r) == write_value::<T>(old(store)@, self.id(), v@),
    {
        match T::pull(v) {
            Err(_) => Err(CellError::Conversion),
            Ok(x) => {
                if store.slots[self.id].borrow == BorrowState::Free {
                    store.slots[self.id].value = Some(x);
                    proof {
                        assert(store@ =~= old(store)@.update(
                            self.id(),
                            CellState { value: Some(x@), ..old(store)@[self.id()] },
                        ));
                    }
                    Ok(())
                } else {
                    Err(CellError::BorrowConflict)
                }
            },
        }
    }
}

} // verus!

verus! {

impl<T: View> Ref<T> {
    /// Reads a cell handle out of a script value, taking a share of the cell.
    pub fn from_script(v: &ScriptValue, store: &mut CellStore<T>) -> (r: Result<
        Ref<T>,
        ConversionError,
    >)
        requires
            match v@ {
                ScriptVal::Cell(i) => live(old(store)@, i as int) ==> old(store)@[i as int].holders
                    < usize::MAX,
                _ => true,
            },
        ensures
            match v@ {
                ScriptVal::Cell(i) => if live(old(store)@, i as int) {
                    r matches Ok(c) && c.id() == i && final(store)@ == old(store)@.update(
                        i as int,
                        CellState {
                            holders: old(store)@[i as int].holders + 1,
                            ..old(store)@[i as int]
                        },
                    )
                } else {
                    r is Err && final(store)@ == old(store)@
                },
                _ => r is Err && final(store)@ == old(store)@,
            },
    {
        match v {
            ScriptValue::Cell(i) => {
                if *i < store.slots.len() && store.slots[*i].holders > 0 && store.slots[*i].value.is_some() {
                    let held: Ref<T> = Ref { id: *i, kind: core::marker::PhantomData };
                    let r = held.share(store);
                    Ok(r)
                } else {
                    Err(ConversionError)
                }
            },
            _ => Err(ConversionError),
        }
    }
}

/// The change an edit from `before` to `after` reports: one exactly when the
/// text differs.
pub open spec fn reported(before: Seq<char>, after: Seq<char>) -> Option<(Seq<char>, Seq<char>)> {
    if before != after {
        Some((before, after))
    } else {
        None
    }
}

/// The model of a reported change, if any.
pub open spec fn change_of(r: Option<Change>) -> Option<(Seq<char>, Seq<char>)> {
    match r {
        Some(c) => Some((c.before@, c.after@)),
        None => None,
    }
}

/// A change that an edit made to a text cell.
#[derive(Debug, PartialEq, Eq)]
pub struct Change {
    pub before: String,
    pub after: String,
}

impl Ref<String> {
    /// The stringification of a text cell: its current content.
    pub fn to_text(&self, store: &CellStore<String>) -> (r: Result<ScriptValue, BorrowConflict>)
        requires
            self.valid(store@),
        ensures
            match r {
                Ok(v) => store@[self.id()].borrow != BorrowState::Writing && v@ == ScriptVal::Text(
                    store@[self.id()].value.unwrap(),
                ),
                Err(_) => store@[self.id()].borrow == BorrowState::Writing,
            },
    {
        self.get(store)
    }

    /// Takes the write borrow for an edit and hands out the current text.
    pub fn begin_edit(&self, store: &mut CellStore<String>) -> (r: Result<String, BorrowConflict>)
        requires
            self.valid(old(store)@),
        ensures
            final(store)@ == write_borrow(old(store)@, self.id()).0,
            match r {
                Ok(s) => old(store)@[self.id()].borrow == BorrowState::Free && s@ == old(store)@[self.id()].value.unwrap(),
                Err(_) => old(store)@[self.id()].borrow != BorrowState::Free,
            },
    {
        match self.mut_(store) {
            Ok(()) => {
                assert(store.slots@.len() == store@.len());
                match &store.slots[self.id].value {
                    Some(v) => Ok(v.clone()),
                    None => {
                        proof {
                            assert(store@[self.id()].value is Some);
                        }
                        Err(BorrowConflict)
                    },
                }
            },
            Err(e) => Err(e),
        }
    }

    /// Stores the edited text, gives back the write borrow, and reports the
    /// change if the text differs from what the cell held.
    pub fn apply_edit(&self, store: &mut CellStore<String>, edited: String) -> (r: Option<Change>)
        requires
            self.valid(old(store)@),
            old(store)@[self.id()].borrow == BorrowState::Writing,
        ensures
            final(store)@ == old(store)@.update(
                self.id(),
                CellState { value: Some(edited@), holders: old(store)@[self.id()].holders, borrow: BorrowState::Free },
            ),
            change_of(r) == reported(old(store)@[self.id()].value.unwrap(), edited@),
    {
        let id = self.id;
        let before = match &store.slots[id].value {
            Some(v) => v.clone(),
            None => String::new(),
        };
        let changed = before != edited;
        let after = edited.clone();
        store.slots[id].value = Some(edited);
        store.slots[id].borrow = BorrowState::Free;
        proof {
            assert(store@ =~= old(store)@.update(
                self.id(),
                CellState { value: Some(after@), holders: old(store)@[self.id()].holders, borrow: BorrowState::Free },
            ));
        }
        if changed {
            Some(Change { before, after })
        } else {
            None
        }
    }
}

/// An edit reports no change when it leaves the text as it was, and exactly
/// one change, from the old text to the new, when it does not.
pub proof fn lemma_change_precision(before: Seq<char>, after: Seq<char>)
    ensures
        reported(before, before) is None,
        before != after ==> reported(before, after) == Some((before, after)),
{
}

/// Storing a pushed value in a free cell and reading it back gives the value.
pub proof fn lemma_round_trip<T: ScriptConvert>(cells: Seq<CellState<T::V>>, id: int, v: T::V)
    requires
        live(cells, id),
        cells[id].borrow == BorrowState::Free,
    ensures
        write_value::<T>(cells, id, T::script_of(v)).1 == Ok::<(), CellError>(()),
        read_value::<T>(write_value::<T>(cells, id, T::script_of(v)).0, id) matches Ok(s)
            && T::from_script(s) == Some(v),
{
    T::lemma_pull_push(v);
}

/// While any borrow of a cell is outstanding, a write borrow is refused and
/// leaves the cells as they were; while it is written, so is a read borrow.
pub proof fn lemma_borrow_exclusive<V>(cells: Seq<CellState<V>>, id: int)
    requires
        live(cells, id),
        cells[id].borrow != BorrowState::Free,
    ensures
        write_borrow(cells, id) == (cells, Err::<(), BorrowConflict>(BorrowConflict)),
        cells[id].borrow == BorrowState::Writing ==> read_borrow(cells, id) == (
            cells,
            Err::<(), BorrowConflict>(BorrowConflict),
        ),
{
}

/// A write borrow, once granted, is refused to every later request until it
/// is given back.
pub proof fn lemma_second_write_refused<V>(cells: Seq<CellState<V>>, id: int)
    requires
        live(cells, id),
        write_borrow(cells, id).1 is Ok,
    ensures
        write_borrow(write_borrow(cells, id).0, id).1 is Err,
        read_borrow(write_borrow(cells, id).0, id).1 is Err,
        write_borrow(write_borrow(cells, id).0, id).0 == write_borrow(cells, id).0,
{
}

} // verus!
