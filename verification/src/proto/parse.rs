//! Byte-at-a-time parsers.

use core::marker::PhantomData;

use vstd::prelude::*;

use crate::bytes::{from_le16, u16_from_le};

verus! {

/// What a parser reports after one input: a result, or an updated state.
#[derive(Debug)]
pub enum Status<Output, SideEffect> {
    Complete(Output),
    Incomplete(SideEffect),
}

/// A parser that consumes its input one item at a time.
pub trait State<Input>: Sized {
    type Output;
    type SideEffect;
    type Error;

    /// What `push` may return from `self` on `input`.
    spec fn pushes_to(
        self,
        input: Input,
        r: Result<Status<Self::Output, (Self, Self::SideEffect)>, Self::Error>,
    ) -> bool;

    /// Consumes one item of input.
    fn push(self, input: Input) -> (r: Result<
        Status<Self::Output, (Self, Self::SideEffect)>,
        Self::Error,
    >)
        ensures
            Self::pushes_to(self, input, r),
    ;
}

/// Parses a little-endian 16-bit value from two bytes.
pub struct ParseU16 {
    first_byte: Option<u8>,
}

impl ParseU16 {
    /// The byte already received, if any.
    pub closed spec fn spec_first_byte(&self) -> Option<u8> {
        self.first_byte
    }

    /// The parser before any byte.
    pub fn init() -> (r: Self)
        ensures
            r.spec_first_byte() is None,
    {
        ParseU16 { first_byte: None }
    }
}

impl State<u8> for ParseU16 {
    type Output = u16;
    type SideEffect = ();
    type Error = ();

    open spec fn pushes_to(self, input: u8, r: Result<Status<u16, (Self, ())>, ()>) -> bool {
        match self.spec_first_byte() {
            Some(first) => r == Ok::<Status<u16, (Self, ())>, ()>(
                Status::Complete(from_le16(first, input)),
            ),
            None => r matches Ok(Status::Incomplete((next, ())))
                && next.spec_first_byte() == Some(input),
        }
    }

    fn push(self, input: u8) -> (r: Result<Status<u16, (Self, ())>, ()>) {
        let mut this = self;
        Ok(
            if let Some(first_byte) = this.first_byte {
                Status::Complete(u16_from_le(first_byte, input))
            } else {
                this.first_byte = Some(input);
                Status::Incomplete((this, ()))
            },
        )
    }
}

/// Two pushes of the little-endian bytes of `x` into a fresh `ParseU16` give `x`.
pub proof fn lemma_parse_u16_roundtrip(
    fresh: ParseU16,
    x: u16,
    r1: Result<Status<u16, (ParseU16, ())>, ()>,
    next: ParseU16,
    r2: Result<Status<u16, (ParseU16, ())>, ()>,
)
    requires
        fresh.spec_first_byte() is None,
        fresh.pushes_to((x % 256) as u8, r1),
        r1 matches Ok(Status::Incomplete((n, ()))) && n == next,
        next.pushes_to((x / 256) as u8, r2),
    ensures
        r2 == Ok::<Status<u16, (ParseU16, ())>, ()>(Status::Complete(x)),
{
}

/// An error read from the input in place of an item, or an error of the
/// parser that the items go to.
#[derive(Debug)]
pub enum ItemResultError<ItemError, ParseError> {
    Item(ItemError),
    Parsing(ParseError),
}

/// Feeds a parser with items that may be errors: an error stops parsing.
pub struct ItemResult<Input, S: State<Input>>(S, PhantomData<Input>);

impl<Input, S: State<Input>> ItemResult<Input, S> {
    /// The parser fed.
    pub closed spec fn inner(&self) -> S {
        self.0
    }

    /// Feeds `state`.
    pub fn new(state: S) -> (r: Self)
        ensures
            r.inner() == state,
    {
        ItemResult(state, PhantomData)
    }
}

/// What a push into `ItemResult` returns for what the parser fed returned.
pub open spec fn lifts<Input, S: State<Input>, ItemError>(
    inner: Result<Status<S::Output, (S, S::SideEffect)>, S::Error>,
    r: Result<
        Status<S::Output, (ItemResult<Input, S>, S::SideEffect)>,
        ItemResultError<ItemError, S::Error>,
    >,
) -> bool {
    match inner {
        Err(e) => r == Err::<
            Status<S::Output, (ItemResult<Input, S>, S::SideEffect)>,
            ItemResultError<ItemError, S::Error>,
        >(ItemResultError::Parsing(e)),
        Ok(Status::Complete(o)) => r == Ok::<
            Status<S::Output, (ItemResult<Input, S>, S::SideEffect)>,
            ItemResultError<ItemError, S::Error>,
        >(Status::Complete(o)),
        Ok(Status::Incomplete((next, side_effect))) => r matches Ok(
            Status::Incomplete((wrapped, se)),
        ) && wrapped.inner() == next && se == side_effect,
    }
}

impl<Input, S: State<Input>, ItemError> State<Result<Input, ItemError>> for ItemResult<Input, S> {
    type Output = S::Output;
    type SideEffect = S::SideEffect;
    type Error = ItemResultError<ItemError, S::Error>;

    open spec fn pushes_to(
        self,
        input: Result<Input, ItemError>,
        r: Result<Status<S::Output, (Self, S::SideEffect)>, ItemResultError<ItemError, S::Error>>,
    ) -> bool {
        match input {
            Err(e) => r == Err::<
                Status<S::Output, (Self, S::SideEffect)>,
                ItemResultError<ItemError, S::Error>,
            >(ItemResultError::Item(e)),
            Ok(x) => exists|inner: Result<Status<S::Output, (S, S::SideEffect)>, S::Error>|
                #[trigger] self.inner().pushes_to(x, inner) && lifts::<Input, S, ItemError>(inner, r),
        }
    }

    fn push(self, input: Result<Input, ItemError>) -> (r: Result<
        Status<S::Output, (Self, S::SideEffect)>,
        ItemResultError<ItemError, S::Error>,
    >) {
        let ItemResult(state, _) = self;
        let x = match input {
            Ok(x) => x,
            Err(e) => return Err(ItemResultError::Item(e)),
        };
        let inner = state.push(x);
        assert(self.inner().pushes_to(x, inner));
        match inner {
            Err(e) => Err(ItemResultError::Parsing(e)),
            Ok(Status::Complete(output)) => Ok(Status::Complete(output)),
            Ok(Status::Incomplete((recurse, side_effect))) => Ok(
                Status::Incomplete((ItemResult(recurse, PhantomData), side_effect)),
            ),
        }
    }
}

/// Collects `N` bytes. The push after the `N`-th byte completes with the
/// bytes collected; the byte of that push is not kept.
pub struct ByteArray<const N: usize> {
    index: usize,
    buffer: [u8; N],
}

impl<const N: usize> ByteArray<N> {
    #[verifier::type_invariant]
    spec fn within(self) -> bool {
        self.index <= N
    }

    /// The bytes collected so far.
    pub closed spec fn collected(&self) -> Seq<u8> {
        self.buffer@.take(self.index as int)
    }

    /// A collector that holds no byte yet.
    pub fn new() -> (r: Self)
        ensures
            r.collected() == Seq::<u8>::empty(),
    {
        ByteArray { index: 0, buffer: [0u8; N] }
    }
}

impl<const N: usize> State<u8> for ByteArray<N> {
    type Output = [u8; N];
    type SideEffect = ();
    type Error = ();

    open spec fn pushes_to(self, input: u8, r: Result<Status<[u8; N], (Self, ())>, ()>) -> bool {
        if self.collected().len() < N {
            r matches Ok(Status::Incomplete((next, ()))) && next.collected() == self.collected().push(
                input,
            )
        } else {
            r matches Ok(Status::Complete(bytes)) && bytes@ == self.collected()
        }
    }

    fn push(self, input: u8) -> (r: Result<Status<[u8; N], (Self, ())>, ()>) {
        proof {
            use_type_invariant(&self);
        }
        let ByteArray { index, buffer } = self;
        if index < N {
            let mut buffer = buffer;
            buffer[index] = input;
            let next = ByteArray { index: index + 1, buffer };
            assert(next.collected() =~= self.collected().push(input));
            Ok(Status::Incomplete((next, ())))
        } else {
            assert(buffer@.take(index as int) =~= buffer@);
            Ok(Status::Complete(buffer))
        }
    }
}

} // verus!
