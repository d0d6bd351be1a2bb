//! Values on their way between the host and the virtual machine.
//!
//! The host passes values to the machine, and reads values from it, through
//! numbered slots, which have to be reserved before they are written. This
//! module holds what is decided about a value on that way, and nothing of
//! the way itself.
//!
//! Writing: how many slots a value takes. A scalar takes the slot it is
//! written to. A list is built in its slot out of elements that are written,
//! one after the other, to a scratch slot beside it, so it takes one slot
//! more than its elements do. Arguments are written to consecutive slots, so
//! a stack of arguments takes, for each argument, its position plus what the
//! argument itself takes.
//!
//! Reading: what the type code of a slot means, and what a slot of each
//! type is read as: its truth value, its number, its text, its elements.

use vstd::prelude::*;
use crate::context::Location;
use crate::handle::Handle;

verus! {

/// The number of a slot, or a number of slots: the machine's `int`.
pub type Slot = i32;

/// `count` as a number of slots: itself, or the largest number of slots
/// there is where it is above that.
pub open spec fn capped(count: int) -> Slot {
    if count > Slot::MAX {
        Slot::MAX
    } else {
        count as Slot
    }
}

/// The larger of `total` and what an argument takes that needs `needed`
/// slots and is written to slot `position`.
pub open spec fn deeper(total: int, needed: int, position: int) -> int {
    if total < needed + position {
        needed + position
    } else {
        total
    }
}

/// The slots that a stack of arguments takes, where argument `i` is written
/// to slot `i` and takes `needs[i]` slots from there on: the largest of
/// `needs[i] + i`.
pub open spec fn stack_depth(needs: Seq<int>) -> int
    decreases needs.len(),
{
    if needs.len() == 0 {
        0
    } else {
        deeper(stack_depth(needs.drop_last()), needs.last(), needs.len() - 1)
    }
}

/// The slots to reserve for a stack of arguments. An empty stack still takes
/// one slot.
pub open spec fn total_slots(needs: Seq<int>) -> int {
    if needs.len() == 0 {
        1
    } else {
        stack_depth(needs)
    }
}

/// Capping the parts first and the whole afterwards gives what capping the
/// whole alone gives.
pub proof fn lemma_capped_deeper(total: int, needed: int, position: int)
    requires
        0 <= total,
        1 <= needed,
        0 <= position,
    ensures
        capped(deeper(capped(total) as int, capped(needed) as int, position)) == capped(
            deeper(total, needed, position),
        ),
{
}

/// The larger of `total` and what an argument takes that needs `needed`
/// slots and is written to slot `position`, as a number of slots.
pub(crate) fn deepen(total: Slot, needed: Slot, position: Slot) -> (depth: Slot)
    requires
        0 <= total,
        1 <= needed,
        0 <= position,
    ensures
        depth == capped(deeper(total as int, needed as int, position as int)),
{
    let top = if needed <= Slot::MAX - position {
        needed + position
    } else {
        Slot::MAX
    };
    if total < top {
        top
    } else {
        total
    }
}

/// The type code of a slot that holds a boolean.
pub const WREN_TYPE_BOOL: u32 = 0;

/// The type code of a slot that holds a number.
pub const WREN_TYPE_NUM: u32 = 1;

/// The type code of a slot that holds a foreign object.
pub const WREN_TYPE_FOREIGN: u32 = 2;

/// The type code of a slot that holds a list.
pub const WREN_TYPE_LIST: u32 = 3;

/// The type code of a slot that holds a map.
pub const WREN_TYPE_MAP: u32 = 4;

/// The type code of a slot that holds null.
pub const WREN_TYPE_NULL: u32 = 5;

/// The type code of a slot that holds a string.
pub const WREN_TYPE_STRING: u32 = 6;

/// What a slot holds, as far as the host can tell.
#[derive(PartialEq, Eq, Structural, Debug, Clone, Copy)]
pub enum WrenType {
    Bool,
    Num,
    Foreign,
    List,
    /// A map of the scripting language.
    Mapping,
    Null,
    String,
    /// Anything else: an object of a class of the script's own, a fiber, a
    /// function, a range.
    Unknown,
}

impl From<u32> for WrenType {
    /// Reads a type code of the machine.
    fn from(other: u32) -> (ty: WrenType) {
        if other == WREN_TYPE_BOOL {
            WrenType::Bool
        } else if other == WREN_TYPE_NUM {
            WrenType::Num
        } else if other == WREN_TYPE_FOREIGN {
            WrenType::Foreign
        } else if other == WREN_TYPE_LIST {
            WrenType::List
        } else if other == WREN_TYPE_MAP {
            WrenType::Mapping
        } else if other == WREN_TYPE_NULL {
            WrenType::Null
        } else if other == WREN_TYPE_STRING {
            WrenType::String
        } else {
            WrenType::Unknown
        }
    }
}

impl vstd::std_specs::convert::FromSpecImpl<u32> for WrenType {
    open spec fn obeys_from_spec() -> bool {
        true
    }

    open spec fn from_spec(other: u32) -> WrenType {
        if other == WREN_TYPE_BOOL {
            WrenType::Bool
        } else if other == WREN_TYPE_NUM {
            WrenType::Num
        } else if other == WREN_TYPE_FOREIGN {
            WrenType::Foreign
        } else if other == WREN_TYPE_LIST {
            WrenType::List
        } else if other == WREN_TYPE_MAP {
            WrenType::Mapping
        } else if other == WREN_TYPE_NULL {
            WrenType::Null
        } else if other == WREN_TYPE_STRING {
            WrenType::String
        } else {
            WrenType::Unknown
        }
    }
}

/// The truth value of what a slot holds: everything is true but `false`
/// and null. `stored` is the boolean in the slot where the slot holds one,
/// and does not matter otherwise.
pub fn truth_value(ty: WrenType, stored: bool) -> (truth: bool)
    ensures
        truth == match ty {
            WrenType::Bool => stored,
            WrenType::Null => false,
            _ => true,
        },
{
    match ty {
        WrenType::Bool => stored,
        WrenType::Null => false,
        _ => true,
    }
}

/// The bits of the number that stands for "not a number".
pub const NAN_BITS: u64 = 0x7ff8_0000_0000_0000;

/// The number that a slot holds: `stored` where the slot holds a number,
/// and "not a number" otherwise. `stored` does not matter then.
pub fn number_value(ty: WrenType, stored: Num) -> (number: Num)
    ensures
        ty == WrenType::Num ==> number == stored,
        ty != WrenType::Num ==> number.bits == NAN_BITS,
{
    match ty {
        WrenType::Num => stored,
        _ => Num { bits: NAN_BITS },
    }
}

/// The number of elements to read out of a slot as a list: `count`, the
/// length of the list, where the slot holds a list, and none otherwise.
/// `count` does not matter then.
pub fn elements_to_read(ty: WrenType, count: Slot) -> (elements: Slot)
    ensures
        elements == if ty == WrenType::List && count > 0 {
            count
        } else {
            0
        },
{
    match ty {
        WrenType::List => if count > 0 {
            count
        } else {
            0
        },
        _ => 0,
    }
}

/// The signature of the getter that gives the text of an object.
pub const TO_STRING: &'static str = "toString";

/// Where the text of a slot's value comes from.
#[derive(PartialEq, Eq, Structural, Debug, Clone, Copy)]
pub enum TextSource {
    /// The value is `true`.
    True,
    /// The value is `false`.
    False,
    /// The value is null.
    Null,
    /// The value is a string: its bytes are the text.
    Bytes,
    /// The value is an object: its text is what its `toString` returns,
    /// which takes a call into the machine.
    ToString,
    /// The value is an object and the machine cannot be entered: there is
    /// no text, only a handle to the object.
    Handle,
}

impl TextSource {
    /// The text of a value that needs nothing read from the slot.
    pub open spec fn literal(self) -> Option<Seq<char>> {
        match self {
            TextSource::True => Some("true"@),
            TextSource::False => Some("false"@),
            TextSource::Null => Some("null"@),
            _ => None,
        }
    }

    /// The text of a value that needs nothing read from the slot.
    pub fn text(&self) -> (text: Option<&'static str>)
        ensures
            match text {
                Some(literal) => self.literal() == Some(literal@),
                None => self.literal() is None,
            },
    {
        match self {
            TextSource::True => Some("true"),
            TextSource::False => Some("false"),
            TextSource::Null => Some("null"),
            _ => None,
        }
    }
}

/// Where code that runs in `L` gets the text of a slot's value from.
/// `stored` is the boolean in the slot where the slot holds one, and does
/// not matter otherwise.
pub fn text_source<L: Location>(ty: WrenType, stored: bool) -> (source: TextSource)
    ensures
        source == match ty {
            WrenType::Bool => if stored {
                TextSource::True
            } else {
                TextSource::False
            },
            WrenType::Null => TextSource::Null,
            WrenType::String => TextSource::Bytes,
            _ => if L::enters_machine() {
                TextSource::ToString
            } else {
                TextSource::Handle
            },
        },
{
    match ty {
        WrenType::Bool => if stored {
            TextSource::True
        } else {
            TextSource::False
        },
        WrenType::Null => TextSource::Null,
        WrenType::String => TextSource::Bytes,
        _ => if L::may_enter_machine() {
            TextSource::ToString
        } else {
            TextSource::Handle
        },
    }
}

/// The slot through which the elements of the list in slot `slot` pass.
#[derive(Debug, Clone, Copy, PartialEq, Eq, Structural)]
pub struct Scratch {
    /// The slot the elements are written to or read from, one at a time.
    pub item_slot: Slot,
    /// Whether that slot may hold a value of the caller's, which is to be
    /// put aside before the first element and put back after the last.
    pub save: bool,
}

/// Picks the scratch slot for the list in slot `slot`: the slot before it,
/// which is then free to use, or, for a list in slot 0, the slot after it,
/// whose value has to be saved.
pub fn scratch_slot(slot: Slot) -> (scratch: Scratch)
    requires
        Slot::MIN < slot,
    ensures
        slot == 0 ==> scratch.item_slot == 1 && scratch.save,
        slot != 0 ==> scratch.item_slot == slot - 1 && !scratch.save,
{
    if slot == 0 {
        Scratch { item_slot: slot + 1, save: true }
    } else {
        Scratch { item_slot: slot - 1, save: false }
    }
}

/// A type whose values can be written to a slot from code that runs in `L`.
pub trait SetValue<L: Location> {
    /// How many slots writing a value of this type takes, counted from the
    /// slot that receives it.
    spec fn slots() -> int;

    /// Every value takes at least the slot it is written to.
    proof fn slots_is_positive()
        ensures
            Self::slots() >= 1,
    ;

    /// The slots to reserve for a value of this type.
    fn required_slots() -> (count: Slot)
        ensures
            count == capped(Self::slots()),
    ;
}

/// A number of the scripting language, an IEEE 754 double, carried as its
/// bits.
#[derive(Clone, Copy, Debug, PartialEq, Eq, Structural)]
pub struct Num {
    pub bits: u64,
}

impl Num {
    /// The number with the bit pattern `bits`.
    pub fn from_bits(bits: u64) -> (num: Num)
        ensures
            num.bits == bits,
    {
        Num { bits }
    }

    /// The number's bit pattern.
    pub fn to_bits(&self) -> (bits: u64)
        ensures
            bits == self.bits,
    {
        self.bits
    }
}

impl<L: Location> SetValue<L> for () {
    open spec fn slots() -> int {
        1
    }

    proof fn slots_is_positive() {
    }

    fn required_slots() -> (count: Slot) {
        1
    }
}

impl<L: Location> SetValue<L> for bool {
    open spec fn slots() -> int {
        1
    }

    proof fn slots_is_positive() {
    }

    fn required_slots() -> (count: Slot) {
        1
    }
}

impl<L: Location> SetValue<L> for Num {
    open spec fn slots() -> int {
        1
    }

    proof fn slots_is_positive() {
    }

    fn required_slots() -> (count: Slot) {
        1
    }
}

impl<L: Location> SetValue<L> for String {
    open spec fn slots() -> int {
        1
    }

    proof fn slots_is_positive() {
    }

    fn required_slots() -> (count: Slot) {
        1
    }
}

impl<'a, L: Location> SetValue<L> for &'a str {
    open spec fn slots() -> int {
        1
    }

    proof fn slots_is_positive() {
    }

    fn required_slots() -> (count: Slot) {
        1
    }
}

impl<L: Location> SetValue<L> for Handle {
    open spec fn slots() -> int {
        1
    }

    proof fn slots_is_positive() {
    }

    fn required_slots() -> (count: Slot) {
        1
    }
}

impl<'a, L: Location, T: SetValue<L>> SetValue<L> for &'a T {
    open spec fn slots() -> int {
        T::slots()
    }

    proof fn slots_is_positive() {
        T::slots_is_positive();
    }

    fn required_slots() -> (count: Slot) {
        T::required_slots()
    }
}

impl<L: Location, T: SetValue<L>> SetValue<L> for Vec<T> {
    open spec fn slots() -> int {
        1 + T::slots()
    }

    proof fn slots_is_positive() {
        T::slots_is_positive();
    }

    fn required_slots() -> (count: Slot) {
        proof {
            T::slots_is_positive();
        }
        let element = T::required_slots();
        if element < Slot::MAX {
            element + 1
        } else {
            Slot::MAX
        }
    }
}

/// A stack of arguments that can be written to consecutive slots from code
/// that runs in `L`.
pub trait SetArgs<L: Location> {
    /// What each argument takes, in the order of the arguments.
    spec fn needs() -> Seq<int>;

    /// The number of arguments.
    fn count() -> (count: usize)
        ensures
            count == Self::needs().len(),
    ;

    /// The slots to reserve for the whole stack.
    fn total_required_slots() -> (count: Slot)
        ensures
            count == capped(total_slots(Self::needs())),
    ;
}

impl<L: Location> SetArgs<L> for () {
    open spec fn needs() -> Seq<int> {
        Seq::empty()
    }

    fn count() -> (count: usize) {
        0
    }

    fn total_required_slots() -> (count: Slot) {
        1
    }
}

impl<'a, L: Location, T: SetValue<L>> SetArgs<L> for &'a T {
    open spec fn needs() -> Seq<int> {
        seq![T::slots()]
    }

    fn count() -> (count: usize) {
        1
    }

    fn total_required_slots() -> (count: Slot) {
        proof {
            T::slots_is_positive();
            reveal_with_fuel(stack_depth, 2);
        }
        T::required_slots()
    }
}

impl<'a, L: Location, T0: SetValue<L>, T1: SetValue<L>> SetArgs<L> for (&'a T0, &'a T1) {
    open spec fn needs() -> Seq<int> {
        seq![T0::slots(), T1::slots()]
    }

    fn count() -> (count: usize) {
        2
    }

    fn total_required_slots() -> (count: Slot) {
        proof {
            T0::slots_is_positive();
            T1::slots_is_positive();
            reveal_with_fuel(stack_depth, 3);
            lemma_capped_deeper(T0::slots(), T1::slots(), 1);
        }
        let depth = T0::required_slots();
        let depth = deepen(depth, T1::required_slots(), 1);
        depth
    }
}

impl<'a, L: Location, T0: SetValue<L>, T1: SetValue<L>, T2: SetValue<L>> SetArgs<L> for (&'a T0, &'a T1, &'a T2) {
    open spec fn needs() -> Seq<int> {
        seq![T0::slots(), T1::slots(), T2::slots()]
    }

    fn count() -> (count: usize) {
        3
    }

    fn total_required_slots() -> (count: Slot) {
        proof {
            T0::slots_is_positive();
            T1::slots_is_positive();
            T2::slots_is_positive();
            reveal_with_fuel(stack_depth, 4);
            lemma_capped_deeper(T0::slots(), T1::slots(), 1);
            lemma_capped_deeper(deeper(T0::slots(), T1::slots(), 1), T2::slots(), 2);
        }
        let depth = T0::required_slots();
        let depth = deepen(depth, T1::required_slots(), 1);
        let depth = deepen(depth, T2::required_slots(), 2);
        depth
    }
}

impl<'a, L: Location, T0: SetValue<L>, T1: SetValue<L>, T2: SetValue<L>, T3: SetValue<L>> SetArgs<L> for (&'a T0, &'a T1, &'a T2, &'a T3) {
    open spec fn needs() -> Seq<int> {
        seq![T0::slots(), T1::slots(), T2::slots(), T3::slots()]
    }

    fn count() -> (count: usize) {
        4
    }

    fn total_required_slots() -> (count: Slot) {
        proof {
            T0::slots_is_positive();
            T1::slots_is_positive();
            T2::slots_is_positive();
            T3::slots_is_positive();
            reveal_with_fuel(stack_depth, 5);
            lemma_capped_deeper(T0::slots(), T1::slots(), 1);
            lemma_capped_deeper(deeper(T0::slots(), T1::slots(), 1), T2::slots(), 2);
            lemma_capped_deeper(deeper(deeper(T0::slots(), T1::slots(), 1), T2::slots(), 2), T3::slots(), 3);
        }
        let depth = T0::required_slots();
        let depth = deepen(depth, T1::required_slots(), 1);
        let depth = deepen(depth, T2::required_slots(), 2);
        let depth = deepen(depth, T3::required_slots(), 3);
        depth
    }
}

impl<'a, L: Location, T0: SetValue<L>, T1: SetValue<L>, T2: SetValue<L>, T3: SetValue<L>, T4: SetValue<L>> SetArgs<L> for (&'a T0, &'a T1, &'a T2, &'a T3, &'a T4) {
    open spec fn needs() -> Seq<int> {
        seq![T0::slots(), T1::slots(), T2::slots(), T3::slots(), T4::slots()]
    }

    fn count() -> (count: usize) {
        5
    }

    fn total_required_slots() -> (count: Slot) {
        proof {
            T0::slots_is_positive();
            T1::slots_is_positive();
            T2::slots_is_positive();
            T3::slots_is_positive();
            T4::slots_is_positive();
            reveal_with_fuel(stack_depth, 6);
            lemma_capped_deeper(T0::slots(), T1::slots(), 1);
            lemma_capped_deeper(deeper(T0::slots(), T1::slots(), 1), T2::slots(), 2);
            lemma_capped_deeper(deeper(deeper(T0::slots(), T1::slots(), 1), T2::slots(), 2), T3::slots(), 3);
            lemma_capped_deeper(deeper(deeper(deeper(T0::slots(), T1::slots(), 1), T2::slots(), 2), T3::slots(), 3), T4::slots(), 4);
        }
        let depth = T0::required_slots();
        let depth = deepen(depth, T1::required_slots(), 1);
        let depth = deepen(depth, T2::required_slots(), 2);
        let depth = deepen(depth, T3::required_slots(), 3);
        let depth = deepen(depth, T4::required_slots(), 4);
        depth
    }
}

impl<'a, L: Location, T0: SetValue<L>, T1: SetValue<L>, T2: SetValue<L>, T3: SetValue<L>, T4: SetValue<L>, T5: SetValue<L>> SetArgs<L> for (&'a T0, &'a T1, &'a T2, &'a T3, &'a T4, &'a T5) {
    open spec fn needs() -> Seq<int> {
        seq![T0::slots(), T1::slots(), T2::slots(), T3::slots(), T4::slots(), T5::slots()]
    }

    fn count() -> (count: usize) {
        6
    }

    fn total_required_slots() -> (count: Slot) {
        proof {
            T0::slots_is_positive();
            T1::slots_is_positive();
            T2::slots_is_positive();
            T3::slots_is_positive();
            T4::slots_is_positive();
            T5::slots_is_positive();
            reveal_with_fuel(stack_depth, 7);
            lemma_capped_deeper(T0::slots(), T1::slots(), 1);
            lemma_capped_deeper(deeper(T0::slots(), T1::slots(), 1), T2::slots(), 2);
            lemma_capped_deeper(deeper(deeper(T0::slots(), T1::slots(), 1), T2::slots(), 2), T3::slots(), 3);
            lemma_capped_deeper(deeper(deeper(deeper(T0::slots(), T1::slots(), 1), T2::slots(), 2), T3::slots(), 3), T4::slots(), 4);
            lemma_capped_deeper(deeper(deeper(deeper(deeper(T0::slots(), T1::slots(), 1), T2::slots(), 2), T3::slots(), 3), T4::slots(), 4), T5::slots(), 5);
        }
        let depth = T0::required_slots();
        let depth = deepen(depth, T1::required_slots(), 1);
        let depth = deepen(depth, T2::required_slots(), 2);
        let depth = deepen(depth, T3::required_slots(), 3);
        let depth = deepen(depth, T4::required_slots(), 4);
        let depth = deepen(depth, T5::required_slots(), 5);
        depth
    }
}

impl<'a, L: Location, T0: SetValue<L>, T1: SetValue<L>, T2: SetValue<L>, T3: SetValue<L>, T4: SetValue<L>, T5: SetValue<L>, T6: SetValue<L>> SetArgs<L> for (&'a T0, &'a T1, &'a T2, &'a T3, &'a T4, &'a T5, &'a T6) {
    open spec fn needs() -> Seq<int> {
        seq![T0::slots(), T1::slots(), T2::slots(), T3::slots(), T4::slots(), T5::slots(), T6::slots()]
    }

    fn count() -> (count: usize) {
        7
    }

    fn total_required_slots() -> (count: Slot) {
        proof {
            T0::slots_is_positive();
            T1::slots_is_positive();
            T2::slots_is_positive();
            T3::slots_is_positive();
            T4::slots_is_positive();
            T5::slots_is_positive();
            T6::slots_is_positive();
            reveal_with_fuel(stack_depth, 8);
            lemma_capped_deeper(T0::slots(), T1::slots(), 1);
            lemma_capped_deeper(deeper(T0::slots(), T1::slots(), 1), T2::slots(), 2);
            lemma_capped_deeper(deeper(deeper(T0::slots(), T1::slots(), 1), T2::slots(), 2), T3::slots(), 3);
            lemma_capped_deeper(deeper(deeper(deeper(T0::slots(), T1::slots(), 1), T2::slots(), 2), T3::slots(), 3), T4::slots(), 4);
            lemma_capped_deeper(deeper(deeper(deeper(deeper(T0::slots(), T1::slots(), 1), T2::slots(), 2), T3::slots(), 3), T4::slots(), 4), T5::slots(), 5);
            lemma_capped_deeper(deeper(deeper(deeper(deeper(deeper(T0::slots(), T1::slots(), 1), T2::slots(), 2), T3::slots(), 3), T4::slots(), 4), T5::slots(), 5), T6::slots(), 6);
        }
        let depth = T0::required_slots();
        let depth = deepen(depth, T1::required_slots(), 1);
        let depth = deepen(depth, T2::required_slots(), 2);
        let depth = deepen(depth, T3::required_slots(), 3);
        let depth = deepen(depth, T4::required_slots(), 4);
        let depth = deepen(depth, T5::required_slots(), 5);
        let depth = deepen(depth, T6::required_slots(), 6);
        depth
    }
}

} // verus!
