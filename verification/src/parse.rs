//! Parsers that read a value from the front of a byte sequence.

use vstd::prelude::*;

use vstd::slice::slice_subrange;

use crate::bytes::{from_le16, u16_from_le};

verus! {

/// What a parser makes of the front of its input: a value and the number of
/// items it read, an error and the number of items it read up to and including
/// the one that was wrong, or the need for more input.
#[derive(Debug, PartialEq, Eq)]
pub enum Parsed<Output, Error> {
    Done(Output, usize),
    Failed(Error, usize),
    NeedMore,
}

/// A value that can be read from the front of a sequence of inputs.
pub trait Parse<Input>: Sized {
    type Output;
    type Error;

    /// What `parse` makes of `input`.
    spec fn spec_parse(input: Seq<Input>) -> Parsed<Self::Output, Self::Error>;

    /// A parser reads no more than its input.
    proof fn lemma_parse_within(input: Seq<Input>)
        ensures
            match Self::spec_parse(input) {
                Parsed::Done(_, n) => n <= input.len(),
                Parsed::Failed(_, n) => n <= input.len(),
                Parsed::NeedMore => true,
            },
    ;

    /// Reads a value from the front of `input`.
    fn parse(input: &[Input]) -> (r: Parsed<Self::Output, Self::Error>)
        ensures
            r == Self::spec_parse(input@),
    ;
}

impl Parse<u8> for u16 {
    type Output = u16;
    type Error = ();

    open spec fn spec_parse(input: Seq<u8>) -> Parsed<u16, ()> {
        if input.len() < 2 {
            Parsed::NeedMore
        } else {
            Parsed::Done(from_le16(input[0], input[1]), 2)
        }
    }

    proof fn lemma_parse_within(input: Seq<u8>) {
    }

    fn parse(input: &[u8]) -> (r: Parsed<u16, ()>) {
        if input.len() < 2 {
            Parsed::NeedMore
        } else {
            Parsed::Done(u16_from_le(input[0], input[1]), 2)
        }
    }
}

/// The rest of `input` after `n` items.
pub open spec fn after<T>(input: Seq<T>, n: usize) -> Seq<T> {
    input.subrange(n as int, input.len() as int)
}

impl<Input, E, A: Parse<Input, Error = E>, B: Parse<Input, Error = E>, C: Parse<Input, Error = E>> Parse<Input> for (A, B, C) {
    type Output = (A::Output, B::Output, C::Output);
    type Error = E;

    open spec fn spec_parse(input: Seq<Input>) -> Parsed<Self::Output, E> {
        match A::spec_parse(input) {
            Parsed::NeedMore => Parsed::NeedMore,
            Parsed::Failed(e, n) => Parsed::Failed(e, n),
            Parsed::Done(a, n1) => match B::spec_parse(after(input, n1)) {
                Parsed::NeedMore => Parsed::NeedMore,
                Parsed::Failed(e, n) => Parsed::Failed(e, (n1 + n) as usize),
                Parsed::Done(b, n2) => match C::spec_parse(after(input, (n1 + n2) as usize)) {
                    Parsed::NeedMore => Parsed::NeedMore,
                    Parsed::Failed(e, n) => Parsed::Failed(e, (n1 + n2 + n) as usize),
                    Parsed::Done(c, n3) => Parsed::Done((a, b, c), (n1 + n2 + n3) as usize),
                },
            },
        }
    }

    proof fn lemma_parse_within(input: Seq<Input>) {
        A::lemma_parse_within(input);
        if let Parsed::Done(_, n1) = A::spec_parse(input) {
            B::lemma_parse_within(after(input, n1));
            if let Parsed::Done(_, n2) = B::spec_parse(after(input, n1)) {
                C::lemma_parse_within(after(input, (n1 + n2) as usize));
            }
        }
    }

    fn parse(input: &[Input]) -> (r: Parsed<Self::Output, E>) {
        proof {
            A::lemma_parse_within(input@);
        }
        match A::parse(input) {
            Parsed::NeedMore => Parsed::NeedMore,
            Parsed::Failed(e, n) => Parsed::Failed(e, n),
            Parsed::Done(a, n1) => {
                let rest1 = slice_subrange(input, n1, input.len());
                proof {
                    B::lemma_parse_within(rest1@);
                }
                match B::parse(rest1) {
                    Parsed::NeedMore => Parsed::NeedMore,
                    Parsed::Failed(e, n) => Parsed::Failed(e, n1 + n),
                    Parsed::Done(b, n2) => {
                        let rest2 = slice_subrange(input, n1 + n2, input.len());
                        proof {
                            assert(rest2@ =~= after(input@, (n1 + n2) as usize));
                            C::lemma_parse_within(rest2@);
                        }
                        match C::parse(rest2) {
                            Parsed::NeedMore => Parsed::NeedMore,
                            Parsed::Failed(e, n) => Parsed::Failed(e, n1 + n2 + n),
                            Parsed::Done(c, n3) => Parsed::Done((a, b, c), n1 + n2 + n3),
                        }
                    },
                }
            },
        }
    }
}

} // verus!
