//! Owned references to objects that live inside the virtual machine.
//!
//! A [`Handle`] stands for one reference that the machine has handed out and
//! that has to be given back exactly once. The host keeps the machine's raw
//! reference in it as a plain address; nothing here ever looks through it.
//! A [`CallHandle`] is a handle to a resolved method signature together with
//! the number of arguments the signature takes.

use vstd::prelude::*;
use vstd::slice::slice_to_vec;
use crate::context::{Context, Location};

verus! {

/// The byte that opens a signature's argument list.
pub const OPEN_PAREN: u8 = 40u8;

/// The byte that stands for one argument in a signature.
pub const PLACEHOLDER: u8 = 95u8;

/// The byte that ends a signature handed to the machine.
pub const NUL: u8 = 0u8;

/// Where `byte` first occurs in `bytes`, or the length of `bytes` where it
/// does not occur.
pub open spec fn first_index_of(bytes: Seq<u8>, byte: u8) -> int
    decreases bytes.len(),
{
    if bytes.len() == 0 {
        0
    } else if bytes[0] == byte {
        0
    } else {
        1 + first_index_of(bytes.drop_first(), byte)
    }
}

/// `first_index_of` is the one position before which `byte` does not occur
/// and at which, unless it is the end, `byte` stands.
pub proof fn lemma_first_index_of(bytes: Seq<u8>, byte: u8, k: int)
    requires
        0 <= k <= bytes.len(),
        forall|j: int| 0 <= j < k ==> bytes[j] != byte,
        k < bytes.len() ==> bytes[k] == byte,
    ensures
        first_index_of(bytes, byte) == k,
    decreases k,
{
    if k > 0 {
        let rest = bytes.drop_first();
        assert forall|j: int| 0 <= j < k - 1 implies rest[j] != byte by {
            assert(rest[j] == bytes[j + 1]);
        }
        lemma_first_index_of(rest, byte, k - 1);
    }
}

/// Bounds of `first_index_of`, and what stands before and at it.
pub proof fn lemma_first_index_of_is_first(bytes: Seq<u8>, byte: u8)
    ensures
        0 <= first_index_of(bytes, byte) <= bytes.len(),
        forall|j: int| 0 <= j < first_index_of(bytes, byte) ==> bytes[j] != byte,
        first_index_of(bytes, byte) < bytes.len() ==> bytes[first_index_of(bytes, byte)] == byte,
    decreases bytes.len(),
{
    if bytes.len() > 0 && bytes[0] != byte {
        let rest = bytes.drop_first();
        lemma_first_index_of_is_first(rest, byte);
        let k = first_index_of(bytes, byte);
        assert forall|j: int| 0 <= j < k implies bytes[j] != byte by {
            if j > 0 {
                assert(rest[j - 1] == bytes[j]);
            }
        }
        if k < bytes.len() {
            assert(rest[k - 1] == bytes[k]);
        }
    }
}

/// The bytes of a signature that belong to its argument list: everything
/// from the first opening parenthesis on. A signature without one (a getter)
/// has no argument list.
pub open spec fn argument_list(signature: Seq<u8>) -> Seq<u8> {
    signature.skip(first_index_of(signature, OPEN_PAREN))
}

/// The number of arguments a signature takes: the placeholders in its
/// argument list.
pub open spec fn signature_arity(signature: Seq<u8>) -> nat {
    argument_list(signature).filter(|byte: u8| byte == PLACEHOLDER).len()
}

/// Counts the arguments of `signature`: the placeholders after its first
/// opening parenthesis.
pub fn count_arguments(signature: &[u8]) -> (count: usize)
    ensures
        count == signature_arity(signature@),
{
    let n = signature.len();
    let mut start: usize = 0;
    while start < n && signature[start] != OPEN_PAREN
        invariant
            n == signature@.len(),
            start <= n,
            forall|j: int| 0 <= j < start ==> signature@[j] != OPEN_PAREN,
        decreases n - start,
    {
        start += 1;
    }
    proof {
        lemma_first_index_of(signature@, OPEN_PAREN, start as int);
    }
    let ghost is_placeholder = |byte: u8| byte == PLACEHOLDER;
    let mut count: usize = 0;
    let mut i: usize = start;
    proof {
        assert(signature@.subrange(start as int, i as int) =~= Seq::<u8>::empty());
        reveal(Seq::filter);
    }
    while i < n
        invariant
            n == signature@.len(),
            start <= i <= n,
            count <= i - start,
            count == signature@.subrange(start as int, i as int).filter(is_placeholder).len(),
            is_placeholder == |byte: u8| byte == PLACEHOLDER,
        decreases n - i,
    {
        proof {
            let seen = signature@.subrange(start as int, i as int);
            assert(signature@.subrange(start as int, i + 1) =~= seen.push(signature@[i as int]));
            seen.lemma_filter_len_push(is_placeholder, signature@[i as int]);
        }
        if signature[i] == PLACEHOLDER {
            count += 1;
        }
        i += 1;
    }
    proof {
        assert(signature@.subrange(start as int, n as int) =~= argument_list(signature@));
    }
    count
}

/// Why a byte string is not a signature the machine can be handed.
#[derive(Debug, PartialEq, Eq, Structural, Clone, Copy)]
pub enum SignatureError {
    /// A NUL byte stands at this position, before the last byte.
    InteriorNul(usize),
    /// The string holds no NUL byte at all.
    NotNulTerminated,
}

/// What a NUL-terminated byte string holds before its terminator, or why it
/// is not one: the first NUL must be the last byte.
pub open spec fn terminated_bytes(bytes: Seq<u8>) -> Result<Seq<u8>, SignatureError> {
    let nul = first_index_of(bytes, NUL);
    if nul == bytes.len() {
        Err(SignatureError::NotNulTerminated)
    } else if nul + 1 == bytes.len() {
        Ok(bytes.take(nul))
    } else {
        Err(SignatureError::InteriorNul(nul as usize))
    }
}

/// What `terminated_bytes` accepts and what it returns. A byte string is
/// accepted exactly if it is a text without NUL followed by one NUL, and
/// that text is the result. Of one that is refused, either no byte is NUL,
/// or the first NUL stands at the position named and is not the last byte.
pub proof fn law_terminated_bytes(bytes: Seq<u8>)
    requires
        bytes.len() <= usize::MAX,
    ensures
        match terminated_bytes(bytes) {
            Ok(text) => bytes == text.push(NUL) && !text.contains(NUL),
            Err(SignatureError::NotNulTerminated) => !bytes.contains(NUL),
            Err(SignatureError::InteriorNul(position)) => {
                &&& position + 1 < bytes.len()
                &&& bytes[position as int] == NUL
                &&& !bytes.take(position as int).contains(NUL)
            },
        },
        forall|text: Seq<u8>|
            !text.contains(NUL) ==> #[trigger] terminated_bytes(text.push(NUL)) == Ok::<
                Seq<u8>,
                SignatureError,
            >(text),
{
    lemma_first_index_of_is_first(bytes, NUL);
    let nul = first_index_of(bytes, NUL);
    let before = bytes.take(nul);
    assert(!before.contains(NUL)) by {
        if before.contains(NUL) {
            let j = choose|j: int| 0 <= j < before.len() && before[j] == NUL;
            assert(bytes[j] == NUL);
        }
    }
    if nul == bytes.len() {
        assert(before =~= bytes);
    } else if nul + 1 == bytes.len() {
        assert(bytes =~= before.push(NUL));
    }
    assert forall|text: Seq<u8>| !text.contains(NUL) implies #[trigger] terminated_bytes(
        text.push(NUL),
    ) == Ok::<Seq<u8>, SignatureError>(text) by {
        let whole = text.push(NUL);
        assert forall|j: int| 0 <= j < text.len() implies whole[j] != NUL by {
            assert(text[j] == whole[j]);
        }
        lemma_first_index_of(whole, NUL, text.len() as int);
        assert(whole.take(text.len() as int) =~= text);
    }
}

/// The arity of a signature is counted in its argument list alone: where a
/// name without parenthesis is followed by a list that opens with one, the
/// placeholders of the list count, and those of the name do not.
pub proof fn law_arity_ignores_the_name(name: Seq<u8>, list: Seq<u8>)
    requires
        !name.contains(OPEN_PAREN),
        list.len() > 0 ==> list[0] == OPEN_PAREN,
    ensures
        signature_arity(name + list) == list.filter(|byte: u8| byte == PLACEHOLDER).len(),
{
    let whole = name + list;
    assert forall|j: int| 0 <= j < name.len() implies whole[j] != OPEN_PAREN by {
        assert(name[j] == whole[j]);
    }
    lemma_first_index_of(whole, OPEN_PAREN, name.len() as int);
    assert(argument_list(whole) =~= list);
}

/// Finds the first NUL byte of `bytes`: its position, or the length of
/// `bytes` where there is none.
pub fn find_nul(bytes: &[u8]) -> (position: usize)
    ensures
        position == first_index_of(bytes@, NUL),
        position <= bytes@.len(),
{
    let n = bytes.len();
    let mut nul: usize = 0;
    while nul < n && bytes[nul] != NUL
        invariant
            n == bytes@.len(),
            nul <= n,
            forall|j: int| 0 <= j < nul ==> bytes@[j] != NUL,
        decreases n - nul,
    {
        nul += 1;
    }
    proof {
        lemma_first_index_of(bytes@, NUL, nul as int);
    }
    nul
}

/// Checks that `bytes` end in their only NUL byte and returns how many bytes
/// stand before it.
pub fn check_terminated(bytes: &[u8]) -> (r: Result<usize, SignatureError>)
    ensures
        match r {
            Ok(len) => terminated_bytes(bytes@) == Ok::<Seq<u8>, SignatureError>(
                bytes@.take(len as int),
            ) && len + 1 == bytes@.len(),
            Err(e) => terminated_bytes(bytes@) == Err::<Seq<u8>, SignatureError>(e),
        },
{
    let nul = find_nul(bytes);
    if nul == bytes.len() {
        Err(SignatureError::NotNulTerminated)
    } else if nul + 1 == bytes.len() {
        Ok(nul)
    } else {
        Err(SignatureError::InteriorNul(nul))
    }
}

/// A raw reference that is owned no longer: the handle that held it is
/// gone, and the host owes the machine `vm` the release of `pointer`.
#[derive(Debug, Clone, Copy, PartialEq, Eq, Structural)]
pub struct Released {
    pub vm: usize,
    pub pointer: usize,
}

/// An owned reference to an object inside a virtual machine.
///
/// The value holds the machine's raw reference as an address, and the
/// address of the machine. It cannot be copied; it is moved until
/// [`Handle::release`] consumes it and hands the raw reference back for the
/// one release call the machine is owed.
#[derive(Debug)]
pub struct Handle {
    vm: usize,
    pointer: usize,
}

impl View for Handle {
    type V = usize;

    /// The raw reference.
    closed spec fn view(&self) -> usize {
        self.pointer
    }
}

impl Handle {
    /// The address of the machine that the reference belongs to.
    pub closed spec fn vm(&self) -> usize {
        self.vm
    }

    /// Takes ownership of the raw reference `pointer` of the machine `vm`.
    /// The reference is not checked: it has to come from the machine.
    pub fn new<V, L: Location>(vm: &Context<V, L>, pointer: usize) -> (handle: Handle)
        ensures
            handle@ == pointer,
            handle.vm() == vm.pointer(),
    {
        Handle { vm: vm.as_ptr(), pointer }
    }

    /// The raw reference, for a call into the machine.
    pub fn as_ptr(&self) -> (pointer: usize)
        ensures
            pointer == self@,
    {
        self.pointer
    }

    /// Gives the handle up. The result is the raw reference that the host
    /// now has to release in the machine.
    pub fn release(self) -> (released: Released)
        ensures
            released == (Released { vm: self.vm(), pointer: self@ }),
    {
        Released { vm: self.vm, pointer: self.pointer }
    }
}

impl PartialEq for Handle {
    /// Two handles are equal if they hold the same raw reference.
    fn eq(&self, other: &Handle) -> (r: bool) {
        self.pointer == other.pointer
    }
}

impl vstd::std_specs::cmp::PartialEqSpecImpl for Handle {
    open spec fn obeys_eq_spec() -> bool {
        true
    }

    open spec fn eq_spec(&self, other: &Handle) -> bool {
        self@ == other@
    }
}

/// A handle to a resolved method signature, with the number of arguments
/// that every call through it must pass.
#[derive(Debug)]
pub struct CallHandle {
    handle: Handle,
    argument_count: usize,
    signature: Vec<u8>,
}

impl CallHandle {
    /// The raw reference of the underlying handle.
    pub closed spec fn pointer(&self) -> usize {
        self.handle@
    }

    /// The address of the machine that the handle belongs to.
    pub closed spec fn vm(&self) -> usize {
        self.handle.vm()
    }

    /// The number of arguments recorded when the handle was made.
    pub closed spec fn arity(&self) -> usize {
        self.argument_count
    }

    /// The signature the handle was made for, without its terminator.
    pub closed spec fn signature(&self) -> Seq<u8> {
        self.signature@
    }

    /// The number of arguments recorded when the handle was made.
    pub fn get_argument_count(&self) -> (count: usize)
        ensures
            count == self.arity(),
    {
        self.argument_count
    }

    /// The raw reference, for a call into the machine.
    pub fn as_ptr(&self) -> (pointer: usize)
        ensures
            pointer == self.pointer(),
    {
        self.handle.as_ptr()
    }

    /// Gives the call handle up. The result is the raw reference that the
    /// host now has to release in the machine.
    pub fn release(self) -> (released: Released)
        ensures
            released == (Released { vm: self.vm(), pointer: self.pointer() }),
    {
        self.handle.release()
    }

    /// Wraps the reference `pointer`, which the machine `vm` returned for
    /// `signature`, and records `argument_count` as given. Whether the count
    /// fits the signature is the caller's business.
    pub fn new_unchecked<V, L: Location>(
        vm: &Context<V, L>,
        pointer: usize,
        signature: &[u8],
        argument_count: usize,
    ) -> (call: CallHandle)
        ensures
            call.pointer() == pointer,
            call.vm() == vm.pointer(),
            call.arity() == argument_count,
            call.signature() == signature@,
    {
        CallHandle {
            handle: Handle::new(vm, pointer),
            argument_count,
            signature: slice_to_vec(signature),
        }
    }

    /// Wraps the reference `pointer`, which the machine `vm` returned for
    /// `signature`, and records the number of placeholders in the
    /// signature's argument list.
    pub fn new_from_signature<V, L: Location>(
        vm: &Context<V, L>,
        pointer: usize,
        signature: &[u8],
    ) -> (call: CallHandle)
        ensures
            call.pointer() == pointer,
            call.vm() == vm.pointer(),
            call.arity() == signature_arity(signature@),
            call.signature() == signature@,
    {
        let argument_count = count_arguments(signature);
        CallHandle::new_unchecked(vm, pointer, signature, argument_count)
    }

    /// As [`CallHandle::new_from_signature`], for a signature that still
    /// carries its terminating NUL. Fails, and takes ownership of nothing,
    /// unless the first NUL of `signature` is its last byte.
    pub fn new_from_slice<V, L: Location>(
        vm: &Context<V, L>,
        pointer: usize,
        signature: &[u8],
    ) -> (r: Result<CallHandle, SignatureError>)
        ensures
            match r {
                Ok(call) => {
                    &&& terminated_bytes(signature@) == Ok::<Seq<u8>, SignatureError>(
                        call.signature(),
                    )
                    &&& call.pointer() == pointer
                    &&& call.vm() == vm.pointer()
                    &&& call.arity() == signature_arity(call.signature())
                },
                Err(e) => terminated_bytes(signature@) == Err::<Seq<u8>, SignatureError>(e),
            },
    {
        match check_terminated(signature) {
            Ok(len) => {
                let text = vstd::slice::slice_subrange(signature, 0, len);
                assert(text@ =~= signature@.take(len as int));
                Ok(CallHandle::new_from_signature(vm, pointer, text))
            },
            Err(e) => Err(e),
        }
    }
}

} // verus!
