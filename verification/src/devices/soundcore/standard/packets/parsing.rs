//! Primitive readers and the contract shared by every fixed-width structure.

use vstd::prelude::*;

verus! {

/// Why a byte sequence was rejected by a decoder.
#[derive(Clone, Copy, Debug, PartialEq, Eq, Structural)]
pub enum DecodeError {
    /// The input ended before the structure did.
    Incomplete,
    /// A field held a byte that the layout does not allow.
    Malformed,
    /// Bytes were left over after the last field.
    TrailingData,
}

/// `nom::Err`, what a nom parser fails with. It is carried, never looked
/// into.
#[verifier::external_type_specification]
#[verifier::external_body]
#[verifier::reject_recursive_types(Failure)]
#[verifier::reject_recursive_types(Error)]
pub struct ExNomErr<Failure, Error>(nom::Err<Failure, Error>);

/// `nom::error::Error`, nom's own error value. It is carried, never looked
/// into.
#[verifier::external_type_specification]
#[verifier::external_body]
#[verifier::reject_recursive_types(I)]
pub struct ExNomError<I>(nom::error::Error<I>);

/// `nom::bytes::complete::take` on a byte slice: splits off the first `count`
/// bytes and hands back the rest and the prefix, in that order. It fails
/// exactly when the input is shorter than `count`.
#[verifier::external_body]
pub(crate) fn take_bytes<'a>(input: &'a [u8], count: usize) -> (r: Result<
    (&'a [u8], &'a [u8]),
    nom::Err<nom::error::Error<&'a [u8]>>,
>)
    ensures
        r is Ok <==> count <= input@.len(),
        r matches Ok((rest, taken)) ==> taken@ == input@.take(count as int) && rest@
            == input@.skip(count as int),
{
    nom::bytes::complete::take(count)(input)
}

/// `nom::number::complete::le_u8` on a byte slice: hands back the rest and the
/// first byte. It fails exactly when the input is empty.
#[verifier::external_body]
pub(crate) fn take_u8<'a>(input: &'a [u8]) -> (r: Result<
    (&'a [u8], u8),
    nom::Err<nom::error::Error<&'a [u8]>>,
>)
    ensures
        r is Ok <==> input@.len() > 0,
        r matches Ok((rest, byte)) ==> byte == input@[0] && rest@ == input@.skip(1),
{
    nom::number::complete::le_u8(input)
}

/// `nom::number::complete::le_u16` on a byte slice: hands back the rest and
/// the number whose low byte comes first. It fails exactly when the input
/// has fewer than two bytes.
#[verifier::external_body]
pub(crate) fn take_u16_le<'a>(input: &'a [u8]) -> (r: Result<
    (&'a [u8], u16),
    nom::Err<nom::error::Error<&'a [u8]>>,
>)
    ensures
        r is Ok <==> input@.len() >= 2,
        r matches Ok((rest, number)) ==> number == input@[0] + 256 * input@[1] && rest@
            == input@.skip(2),
{
    nom::number::complete::le_u16(input)
}

/// The truth value that a byte stands for: zero is false, anything else true.
pub open spec fn bool_of_byte(byte: u8) -> bool {
    byte != 0
}

/// The byte written for a truth value.
pub open spec fn byte_of_bool(value: bool) -> u8 {
    if value {
        1
    } else {
        0
    }
}

/// Exec counterpart of [`bool_of_byte`].
pub fn decode_bool(byte: u8) -> (r: bool)
    ensures
        r == bool_of_byte(byte),
{
    byte != 0
}

/// Exec counterpart of [`byte_of_bool`].
pub fn encode_bool(value: bool) -> (r: u8)
    ensures
        r == byte_of_bool(value),
{
    if value {
        1
    } else {
        0
    }
}

/// Reads one byte as a truth value.
pub fn take_bool<'a>(input: &'a [u8]) -> (r: Result<(&'a [u8], bool), DecodeError>)
    ensures
        input@.len() == 0 ==> r == Err::<(&[u8], bool), DecodeError>(DecodeError::Incomplete),
        input@.len() > 0 ==> (r matches Ok((rest, value)) && rest@ == input@.skip(1) && value
            == bool_of_byte(input@[0])),
{
    match take_u8(input) {
        Ok((rest, byte)) => Ok((rest, decode_bool(byte))),
        Err(_) => Err(DecodeError::Incomplete),
    }
}

/// The array that holds the first `count` items of `items`, and the items of
/// `seed` behind them.
pub open spec fn array_prefix<T, const N: usize>(items: Seq<T>, count: nat, seed: [T; N]) -> [T; N]
    decreases count,
{
    if count == 0 {
        seed
    } else {
        vstd::array::spec_array_update(
            array_prefix(items, (count - 1) as nat, seed),
            count - 1,
            items[count - 1],
        )
    }
}

/// The array whose items are those of `items`, for a sequence of the array's
/// length.
pub closed spec fn array_of<T, const N: usize>(items: Seq<T>) -> [T; N] {
    array_prefix(items, N as nat, arbitrary())
}

proof fn lemma_array_prefix<T, const N: usize>(items: Seq<T>, count: nat, seed: [T; N])
    requires
        count <= N,
        count <= items.len(),
    ensures
        forall|i: int| 0 <= i < count ==> array_prefix(items, count, seed)@[i] == items[i],
    decreases count,
{
    broadcast use vstd::array::group_array_axioms;

    if count > 0 {
        lemma_array_prefix(items, (count - 1) as nat, seed);
    }
}

/// An array made from a sequence of its length has that sequence as its view.
pub proof fn lemma_array_of<T, const N: usize>(items: Seq<T>)
    requires
        items.len() == N,
    ensures
        array_of::<T, N>(items)@ == items,
{
    broadcast use vstd::array::group_array_axioms;

    lemma_array_prefix::<T, N>(items, N as nat, arbitrary());
    assert(array_of::<T, N>(items)@ =~= items);
}

/// Arrays with the same view are the same array.
pub proof fn lemma_array_same_view<T, const N: usize>(a: [T; N], b: [T; N])
    requires
        a@ == b@,
    ensures
        a == b,
{
    broadcast use vstd::array::group_array_axioms;

    assert forall|i: int| 0 <= i < N implies a[i] == b[i] by {
        assert(a@[i] == b@[i]);
    }
    assert(a =~= b);
}

/// The fixed-width wire layout of a value.
///
/// The layout is given by spec functions: how wide it is, which windows of
/// that width it accepts, which value an accepted window stands for, and
/// which bytes a value is written as. The two laws tie them together.
pub trait Layout: Sized {
    /// Number of bytes the structure occupies.
    spec fn width() -> nat;

    /// Whether a window of `width()` bytes is an acceptable encoding.
    spec fn accepts(window: Seq<u8>) -> bool;

    /// The value that a window stands for.
    spec fn parsed(window: Seq<u8>) -> Self;

    /// Whether an accepted window is written the way the writer writes:
    /// truth values as zero or one, reserved bytes as zero, no ignored bit
    /// set.
    spec fn canonical(window: Seq<u8>) -> bool;

    /// The invariant of values of this type.
    spec fn wf(&self) -> bool;

    /// The bytes a value is written as.
    spec fn spec_bytes(&self) -> Seq<u8>;

    /// Writing a value gives an accepted window that parses back to it.
    proof fn lemma_bytes_parse_back(v: Self)
        requires
            v.wf(),
        ensures
            v.spec_bytes().len() == Self::width(),
            Self::accepts(v.spec_bytes()),
            Self::parsed(v.spec_bytes()) == v,
    ;

    /// Writing what a canonical window parses to gives the window back.
    proof fn lemma_canonical_rewrites_to_itself(window: Seq<u8>)
        requires
            window.len() == Self::width(),
            Self::accepts(window),
            Self::canonical(window),
        ensures
            Self::parsed(window).spec_bytes() == window,
    ;

    /// Whatever an accepted window parses to is well formed.
    proof fn lemma_parsed_wf(window: Seq<u8>)
        requires
            window.len() == Self::width(),
            Self::accepts(window),
        ensures
            Self::parsed(window).wf(),
    ;

}

/// The executable side of a [`Layout`]: a reader and a writer held to it.
pub trait Codec: Layout {
    /// Reads one structure off the front of `input`.
    fn take<'a>(input: &'a [u8]) -> (r: Result<(&'a [u8], Self), DecodeError>)
        ensures
            take_agrees(r, spec_take::<Self>(input@)),
    ;

    /// Writes the structure.
    fn bytes(&self) -> (r: Vec<u8>)
        ensures
            self.wf(),
            r@ == self.spec_bytes(),
    ;
}

/// What reading a `T` off the front of `input` yields: the value and the
/// unread rest, or the reason for the refusal.
pub open spec fn spec_take<T: Layout>(input: Seq<u8>) -> Result<(Seq<u8>, T), DecodeError> {
    if input.len() < T::width() {
        Err(DecodeError::Incomplete)
    } else if !T::accepts(input.take(T::width() as int)) {
        Err(DecodeError::Malformed)
    } else {
        Ok((input.skip(T::width() as int), T::parsed(input.take(T::width() as int))))
    }
}

/// What decoding a whole input as a `T` yields: as [`spec_take`], and
/// anything left over is refused once the fields have been accepted.
pub open spec fn spec_take_all<T: Layout>(input: Seq<u8>) -> Result<(Seq<u8>, T), DecodeError> {
    match spec_take::<T>(input) {
        Ok((rest, value)) => if rest.len() > 0 {
            Err(DecodeError::TrailingData)
        } else {
            Ok((rest, value))
        },
        Err(e) => Err(e),
    }
}

/// An executable result agrees with the model of it: same value and same
/// rest on success, same error on failure.
pub open spec fn take_agrees<T>(
    r: Result<(&[u8], T), DecodeError>,
    model: Result<(Seq<u8>, T), DecodeError>,
) -> bool {
    match (r, model) {
        (Ok((rest, value)), Ok((model_rest, model_value))) => rest@ == model_rest && value
            == model_value,
        (Err(e), Err(model_e)) => e == model_e,
        _ => false,
    }
}

/// Reading back what was written, with anything behind it, yields the value
/// and leaves exactly what was behind it.
pub proof fn lemma_take_inverts_bytes<T: Layout>(v: T, rest: Seq<u8>)
    requires
        v.wf(),
    ensures
        spec_take::<T>(v.spec_bytes() + rest) == Ok::<(Seq<u8>, T), DecodeError>((rest, v)),
{
    T::lemma_bytes_parse_back(v);
    let input = v.spec_bytes() + rest;
    assert(input.take(T::width() as int) =~= v.spec_bytes());
    assert(input.skip(T::width() as int) =~= rest);
}

/// Decoding exactly what was written yields the value, with nothing left.
pub proof fn lemma_decode_inverts_encode<T: Layout>(v: T)
    requires
        v.wf(),
    ensures
        spec_take_all::<T>(v.spec_bytes()) == Ok::<(Seq<u8>, T), DecodeError>((Seq::empty(), v)),
{
    lemma_take_inverts_bytes::<T>(v, Seq::empty());
    assert(v.spec_bytes() + Seq::<u8>::empty() =~= v.spec_bytes());
}

/// Decoding a whole input succeeds only on inputs of exactly the layout's
/// width: a shorter one is incomplete, a longer one is malformed or has
/// trailing data.
pub proof fn lemma_total_consumption<T: Layout>(input: Seq<u8>)
    ensures
        spec_take_all::<T>(input) is Ok ==> input.len() == T::width(),
        input.len() < T::width() ==> spec_take_all::<T>(input) == Err::<
            (Seq<u8>, T),
            DecodeError,
        >(DecodeError::Incomplete),
        input.len() > T::width() ==> spec_take_all::<T>(input) is Err && spec_take_all::<T>(
            input,
        )->Err_0 != DecodeError::Incomplete,
        spec_take_all::<T>(input) is Ok <==> input.len() == T::width() && T::accepts(input),
{
    if input.len() == T::width() {
        assert(input.take(T::width() as int) =~= input);
    }
}

/// Encoding what was decoded gives the input back, for every input that is
/// accepted and canonical. An input that is accepted but not canonical holds
/// bytes that the value does not keep: a truth value written as another
/// byte than zero or one, a reserved byte that is not zero, or an ignored
/// bit that is set.
pub proof fn lemma_encode_inverts_decode<T: Layout>(input: Seq<u8>)
    requires
        spec_take_all::<T>(input) is Ok,
        T::canonical(input),
    ensures
        spec_take_all::<T>(input)->Ok_0.1.spec_bytes() == input,
{
    lemma_total_consumption::<T>(input);
    assert(input.take(T::width() as int) =~= input);
    T::lemma_canonical_rewrites_to_itself(input);
}

/// Writing what was read and reading it again changes nothing: every accepted
/// window has a normal form that stands for the same value.
pub proof fn lemma_rewrite_is_stable<T: Layout>(window: Seq<u8>)
    requires
        window.len() == T::width(),
        T::accepts(window),
    ensures
        T::parsed(window).spec_bytes().len() == T::width(),
        T::accepts(T::parsed(window).spec_bytes()),
        T::parsed(T::parsed(window).spec_bytes()) == T::parsed(window),
{
    T::lemma_parsed_wf(window);
    T::lemma_bytes_parse_back(T::parsed(window));
}

/// An enumeration that is written as one byte.
pub trait ByteEnum: Sized + Copy {
    /// The byte that stands for a variant.
    spec fn spec_byte(self) -> u8;

    /// The variant that a byte stands for, if any.
    spec fn spec_from_byte(byte: u8) -> Option<Self>;

    /// Every variant is found again from its byte, and no byte stands for a
    /// variant that is written otherwise.
    proof fn lemma_byte_identifies(v: Self, byte: u8)
        ensures
            Self::spec_from_byte(v.spec_byte()) == Some(v),
            Self::spec_from_byte(byte) == Some(v) ==> v.spec_byte() == byte,
    ;

    fn byte(self) -> (r: u8)
        ensures
            r == self.spec_byte(),
    ;

    fn from_byte(byte: u8) -> (r: Option<Self>)
        ensures
            r == Self::spec_from_byte(byte),
    ;
}

/// Reads one `T` at `offset` of a window that is known to be long enough.
/// `cursor` is what is left of the window from `offset` on. The read fails
/// exactly when the bytes at `offset` are not an acceptable `T`.
pub(crate) fn take_within<'a, T: Codec>(
    cursor: &'a [u8],
    Ghost(window): Ghost<Seq<u8>>,
    Ghost(offset): Ghost<int>,
) -> (r: Option<(&'a [u8], T)>)
    requires
        0 <= offset,
        offset + T::width() <= window.len(),
        cursor@ == window.skip(offset),
    ensures
        r is Some <==> T::accepts(window.subrange(offset, offset + T::width())),
        r matches Some((rest, value)) ==> rest@ == window.skip(offset + T::width()) && value
            == T::parsed(window.subrange(offset, offset + T::width())),
{
    assert(cursor@.take(T::width() as int) =~= window.subrange(offset, offset + T::width()));
    assert(cursor@.skip(T::width() as int) =~= window.skip(offset + T::width()));
    match T::take(cursor) {
        Ok(read) => Some(read),
        Err(_) => None,
    }
}

/// Reads the byte at `offset` of a window that is known to be long enough,
/// so the read succeeds.
pub(crate) fn byte_within<'a>(
    cursor: &'a [u8],
    Ghost(window): Ghost<Seq<u8>>,
    Ghost(offset): Ghost<int>,
) -> (r: Result<(&'a [u8], u8), DecodeError>)
    requires
        0 <= offset < window.len(),
        cursor@ == window.skip(offset),
    ensures
        r matches Ok((rest, byte)) && rest@ == window.skip(offset + 1) && byte == window[offset],
{
    assert(cursor@.skip(1) =~= window.skip(offset + 1));
    match take_u8(cursor) {
        Ok(read) => Ok(read),
        Err(_) => Err(DecodeError::Incomplete),
    }
}

/// Reads the byte at `offset` of a window as a truth value.
pub(crate) fn bool_within<'a>(
    cursor: &'a [u8],
    Ghost(window): Ghost<Seq<u8>>,
    Ghost(offset): Ghost<int>,
) -> (r: Result<(&'a [u8], bool), DecodeError>)
    requires
        0 <= offset < window.len(),
        cursor@ == window.skip(offset),
    ensures
        r matches Ok((rest, value)) && rest@ == window.skip(offset + 1) && value == bool_of_byte(
            window[offset],
        ),
{
    assert(cursor@.skip(1) =~= window.skip(offset + 1));
    take_bool(cursor)
}

/// Steps over `count` reserved bytes at `offset` of a window that is known to
/// be long enough, so the step succeeds.
pub(crate) fn skip_within<'a>(
    cursor: &'a [u8],
    count: usize,
    Ghost(window): Ghost<Seq<u8>>,
    Ghost(offset): Ghost<int>,
) -> (r: Result<&'a [u8], DecodeError>)
    requires
        0 <= offset,
        offset + count <= window.len(),
        cursor@ == window.skip(offset),
    ensures
        r matches Ok(rest) && rest@ == window.skip(offset + count),
{
    assert(cursor@.skip(count as int) =~= window.skip(offset + count));
    match take_bytes(cursor, count) {
        Ok((rest, _)) => Ok(rest),
        Err(_) => Err(DecodeError::Incomplete),
    }
}

/// Appends one byte.
pub(crate) fn push_byte(out: &mut Vec<u8>, byte: u8)
    ensures
        final(out)@ == old(out)@ + seq![byte],
{
    out.push(byte);
    assert(out@ =~= old(out)@ + seq![byte]);
}

/// The filling of a reserved region: `count` zero bytes.
pub open spec fn reserved(count: nat) -> Seq<u8> {
    Seq::new(count, |i: int| 0u8)
}

/// Appends the filling of a reserved region of `count` bytes.
pub(crate) fn push_reserved(out: &mut Vec<u8>, count: usize)
    ensures
        final(out)@ == old(out)@ + reserved(count as nat),
{
    let mut i: usize = 0;
    while i < count
        invariant
            i <= count,
            out@ == old(out)@ + reserved(i as nat),
        decreases count - i,
    {
        out.push(0);
        i = i + 1;
        assert(out@ =~= old(out)@ + reserved(i as nat));
    }
}

} // verus!
