//! Wrappers: types that carry a value of another type through the codec.

use vstd::prelude::*;
use crate::error::DecodeError;
use crate::portable::put_bytes;
use crate::traits::{
    WrapCompress,
    WrapDecodable,
    WrapDecode,
    WrapDecompress,
    WrapEncodable,
    WrapEncode,
};

verus! {

/// The zero-copy archive of a value: the bytes of its archived form, stored
/// as they are.
///
/// The bytes are not looked into here. Whoever turns an archive back into a
/// value either validates it or knows that this layer wrote it: an archive
/// from elsewhere is not to be trusted, and the portable encoding is the one
/// for such data.
#[derive(Debug, PartialEq, Eq)]
pub struct Archived {
    pub bytes: Vec<u8>,
}

impl View for Archived {
    type V = Seq<u8>;

    open spec fn view(&self) -> Seq<u8> {
        self.bytes@
    }
}

impl WrapEncodable for Archived {
    open spec fn name() -> Seq<char> {
        "Archived"@
    }

    fn name_of_type() -> (name: String) {
        "Archived".to_owned()
    }

    open spec fn encoding(v: Seq<u8>) -> Seq<u8> {
        v
    }

    fn encode_wrapped(&self, out: &mut Vec<u8>) {
        put_bytes(self.bytes.as_slice(), 0, self.bytes.len(), out);
        assert(self.bytes@.subrange(0, self.bytes@.len() as int) =~= self.bytes@);
    }
}

impl WrapDecodable for Archived {
    open spec fn decoding(bytes: Seq<u8>) -> Result<Seq<u8>, DecodeError> {
        Ok(bytes)
    }

    fn decode_wrapped(buf: &[u8]) -> (r: Result<Archived, DecodeError>) {
        let mut bytes: Vec<u8> = Vec::new();
        put_bytes(buf, 0, buf.len(), &mut bytes);
        assert(buf@.subrange(0, buf@.len() as int) =~= buf@);
        Ok(Archived { bytes })
    }

    proof fn lemma_decode_encode(v: Seq<u8>) {
    }
}

impl WrapCompress for Archived {
}

impl WrapDecompress for Archived {
}

impl WrapEncode for Archived {
}

impl WrapDecode for Archived {
}

/// A type that has no codec of its own and borrows that of another type,
/// its wrapper: a value is encoded as the wrapper made of it, and decoded
/// from the wrapper that the bytes hold.
pub trait Delegate: View + Sized {
    /// The type whose codec is used.
    type Wrapper: WrapDecodable;

    /// The name by which a table's declaration knows the type.
    spec fn name() -> Seq<char>;

    /// Gives the type's name.
    fn name_of_type() -> (name: String)
        ensures
            name@ == Self::name(),
    ;

    /// The wrapper that stands for a value.
    spec fn wrapped(v: Self::V) -> <Self::Wrapper as View>::V;

    /// The value that a wrapper stands for.
    spec fn unwrapped(w: <Self::Wrapper as View>::V) -> Self::V;

    /// Makes the wrapper of a value.
    fn to_wrapper(&self) -> (w: Self::Wrapper)
        ensures
            w@ == Self::wrapped(self@),
    ;

    /// Takes the value out of a wrapper.
    fn from_wrapper(w: Self::Wrapper) -> (v: Self)
        ensures
            v@ == Self::unwrapped(w@),
    ;

    /// Unwrapping undoes wrapping.
    proof fn lemma_unwrapped_wrapped(v: Self::V)
        ensures
            Self::unwrapped(Self::wrapped(v)) == v,
    ;
}

/// A value that goes through the codec of its wrapper type. The adapter
/// owns the value for as long as it exists and adds nothing to it.
#[derive(Debug, PartialEq, Eq)]
pub struct Delegated<T: Delegate>(pub T);

impl<T: Delegate> View for Delegated<T> {
    type V = T::V;

    open spec fn view(&self) -> T::V {
        self.0@
    }
}

impl<T: Delegate> WrapEncodable for Delegated<T> {
    open spec fn name() -> Seq<char> {
        T::name()
    }

    fn name_of_type() -> (name: String) {
        T::name_of_type()
    }

    open spec fn encoding(v: T::V) -> Seq<u8> {
        T::Wrapper::encoding(T::wrapped(v))
    }

    fn encode_wrapped(&self, out: &mut Vec<u8>) {
        let w = self.0.to_wrapper();
        w.encode_wrapped(out);
    }
}

impl<T: Delegate> WrapDecodable for Delegated<T> {
    open spec fn decoding(bytes: Seq<u8>) -> Result<T::V, DecodeError> {
        match T::Wrapper::decoding(bytes) {
            Ok(w) => Ok(T::unwrapped(w)),
            Err(e) => Err(e),
        }
    }

    fn decode_wrapped(buf: &[u8]) -> (r: Result<Delegated<T>, DecodeError>) {
        match T::Wrapper::decode_wrapped(buf) {
            Ok(w) => Ok(Delegated(T::from_wrapper(w))),
            Err(e) => Err(e),
        }
    }

    proof fn lemma_decode_encode(v: T::V) {
        T::Wrapper::lemma_decode_encode(T::wrapped(v));
        T::lemma_unwrapped_wrapped(v);
    }
}

impl<T: Delegate> WrapCompress for Delegated<T> {
}

impl<T: Delegate> WrapDecompress for Delegated<T> {
}

impl<T: Delegate> WrapEncode for Delegated<T> {
}

impl<T: Delegate> WrapDecode for Delegated<T> {
}

/// A flag is stored as the byte 1 or 0, and any byte but 0 reads as set.
impl Delegate for bool {
    type Wrapper = u8;

    open spec fn name() -> Seq<char> {
        "bool"@
    }

    fn name_of_type() -> (name: String) {
        "bool".to_owned()
    }

    open spec fn wrapped(v: bool) -> u8 {
        if v {
            1
        } else {
            0
        }
    }

    open spec fn unwrapped(w: u8) -> bool {
        w != 0
    }

    fn to_wrapper(&self) -> (w: u8) {
        if *self {
            1
        } else {
            0
        }
    }

    fn from_wrapper(w: u8) -> (v: bool) {
        w != 0
    }

    proof fn lemma_unwrapped_wrapped(v: bool) {
    }
}

} // verus!
