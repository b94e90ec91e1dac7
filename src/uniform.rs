//! Uniform records: the fixed-layout data that the GPU programs read, the
//! logical values they are made from, and their byte encoding.

use vstd::arithmetic::div_mod::{lemma_div_denominator, lemma_fundamental_div_mod};
use vstd::prelude::*;

verus! {

/// The four bytes of `x`, least significant first, as the GPU reads a
/// 32-bit integer.
pub open spec fn le_bytes(x: u32) -> Seq<u8> {
    seq![
        (x % 256) as u8,
        (x / 256 % 256) as u8,
        (x / 65536 % 256) as u8,
        (x / 16777216) as u8,
    ]
}

/// The value that four bytes, least significant first, encode.
pub open spec fn le_value(b: Seq<u8>) -> int {
    b[0] + 256 * b[1] + 65536 * b[2] + 16777216 * b[3]
}

/// A record that is uploaded to a GPU buffer as a whole: it has a fixed
/// byte encoding.
pub trait UniformData: Copy {
    /// The bytes that stand for `self` in GPU memory.
    spec fn encoded(self) -> Seq<u8>;

    /// The record's size in bytes, the same for every value of the type.
    spec fn byte_size() -> nat;

    fn to_bytes(&self) -> (r: Vec<u8>)
        ensures
            r@ == self.encoded(),
            r@.len() == Self::byte_size(),
    ;
}

/// A logical value that has a uniform record as its GPU form.
pub trait UniformDataDescriptor<Data: UniformData>: Sized {
    /// The record that stands for `self`.
    spec fn to_data(self) -> Data;

    /// The logical value that a record holds.
    spec fn of_data(data: Data) -> Self;

    fn into_uniform_data(self) -> (r: Data)
        ensures
            r == self.to_data(),
    ;

    fn from_uniform_data(data: Data) -> (r: Self)
        ensures
            r == Self::of_data(data),
    ;
}

/// The GPU record of the screen size: width then height, in pixels.
#[derive(Clone, Copy, Debug, Default, PartialEq, Eq, Structural)]
pub struct SizeUniformData {
    pub width: u32,
    pub height: u32,
}

/// The size record under the name the renderer uses for it.
pub type SizeUniform = SizeUniformData;

impl SizeUniformData {
    pub fn new(width: u32, height: u32) -> (r: SizeUniformData)
        ensures
            r.width == width,
            r.height == height,
    {
        SizeUniformData { width, height }
    }
}

impl UniformData for SizeUniformData {
    open spec fn encoded(self) -> Seq<u8> {
        le_bytes(self.width) + le_bytes(self.height)
    }

    open spec fn byte_size() -> nat {
        8
    }

    fn to_bytes(&self) -> (r: Vec<u8>) {
        let mut r: Vec<u8> = Vec::with_capacity(8);
        push_le_bytes(&mut r, self.width);
        push_le_bytes(&mut r, self.height);
        r
    }
}

/// Appends the four bytes of `x`, least significant first.
fn push_le_bytes(out: &mut Vec<u8>, x: u32)
    ensures
        final(out)@ == old(out)@ + le_bytes(x),
{
    out.push((x % 256) as u8);
    out.push((x / 256 % 256) as u8);
    out.push((x / 65536 % 256) as u8);
    out.push((x / 16777216) as u8);
    assert(final(out)@ =~= old(out)@ + le_bytes(x));
}

/// The size of the drawing surface in pixels.
#[derive(Clone, Copy, Debug, Default, PartialEq, Eq, Structural)]
pub struct ScreenData {
    pub width: u32,
    pub height: u32,
}

/// The screen size as the logical side of the size record.
pub type SizeUniformDataDescriptor = ScreenData;

impl ScreenData {
    pub fn new(width: u32, height: u32) -> (r: ScreenData)
        ensures
            r.width == width,
            r.height == height,
    {
        ScreenData { width, height }
    }

    /// Takes a new size, unless one of its dimensions is zero: such a size
    /// (a minimised window) is ignored. Returns whether the size was taken.
    pub fn resize(&mut self, width: u32, height: u32) -> (taken: bool)
        ensures
            taken == (width > 0 && height > 0),
            taken ==> *final(self) == (ScreenData { width, height }),
            !taken ==> *final(self) == *old(self),
    {
        if width > 0 && height > 0 {
            self.width = width;
            self.height = height;
            true
        } else {
            false
        }
    }
}

impl UniformDataDescriptor<SizeUniformData> for ScreenData {
    open spec fn to_data(self) -> SizeUniformData {
        SizeUniformData { width: self.width, height: self.height }
    }

    open spec fn of_data(data: SizeUniformData) -> ScreenData {
        ScreenData { width: data.width, height: data.height }
    }

    fn into_uniform_data(self) -> (r: SizeUniformData) {
        SizeUniformData { width: self.width, height: self.height }
    }

    fn from_uniform_data(data: SizeUniformData) -> (r: ScreenData) {
        ScreenData { width: data.width, height: data.height }
    }
}

/// The record held by one GPU uniform buffer. The buffer is written whole
/// on creation and on every update, with bytes of the same length: it is
/// never resized and never partly written.
#[derive(Clone, Copy, Debug)]
pub struct Uniform<Data> {
    data: Data,
}

impl<Data: UniformData> Uniform<Data> {
    /// The record that the buffer holds.
    pub closed spec fn view_data(self) -> Data {
        self.data
    }

    /// A buffer made for `descriptor`; the bytes are its initial contents.
    pub fn create_uniform<D: UniformDataDescriptor<Data>>(descriptor: D) -> (r: (Uniform<Data>, Vec<u8>))
        ensures
            r.0.view_data() == descriptor.to_data(),
            r.1@ == descriptor.to_data().encoded(),
            r.1@.len() == Data::byte_size(),
    {
        let data = descriptor.into_uniform_data();
        let bytes = data.to_bytes();
        (Uniform { data }, bytes)
    }

    /// Replaces the record with the one made for `descriptor`; returns the
    /// bytes that overwrite the whole buffer.
    pub fn update_uniform<D: UniformDataDescriptor<Data>>(&mut self, descriptor: D) -> (bytes: Vec<u8>)
        ensures
            final(self).view_data() == descriptor.to_data(),
            bytes@ == descriptor.to_data().encoded(),
            bytes@.len() == Data::byte_size(),
    {
        self.data = descriptor.into_uniform_data();
        self.data.to_bytes()
    }

    pub fn data(&self) -> (r: Data)
        ensures
            r == self.view_data(),
    {
        self.data
    }

    /// The logical value that the record holds.
    pub fn data_descriptor<D: UniformDataDescriptor<Data>>(&self) -> (r: D)
        ensures
            r == D::of_data(self.view_data()),
    {
        D::from_uniform_data(self.data)
    }
}

impl Uniform<SizeUniformData> {
    pub fn width(&self) -> (r: u32)
        ensures
            r == self.view_data().width,
    {
        let screen: ScreenData = self.data_descriptor();
        screen.width
    }

    pub fn height(&self) -> (r: u32)
        ensures
            r == self.view_data().height,
    {
        let screen: ScreenData = self.data_descriptor();
        screen.height
    }
}

/// Every screen size survives the trip through its GPU record, and every
/// record through the screen size it holds.
pub proof fn lemma_screen_round_trip(s: ScreenData, d: SizeUniformData)
    ensures
        <ScreenData as UniformDataDescriptor<SizeUniformData>>::of_data(s.to_data()) == s,
        <ScreenData as UniformDataDescriptor<SizeUniformData>>::of_data(d).to_data() == d,
{
}

/// Four bytes, least significant first, read back as the integer they
/// encode.
pub proof fn lemma_le_bytes_value(x: u32)
    ensures
        le_bytes(x).len() == 4,
        le_value(le_bytes(x)) == x,
{
    let v = x as int;
    let b = le_bytes(x);
    assert(b[0] == v % 256 && b[1] == v / 256 % 256 && b[2] == v / 65536 % 256 && b[3] == v / 16777216);
    lemma_fundamental_div_mod(v, 256);
    lemma_fundamental_div_mod(v / 256, 256);
    lemma_fundamental_div_mod(v / 65536, 256);
    lemma_div_denominator(v, 256, 256);
    lemma_div_denominator(v, 65536, 256);
}

/// The byte encoding of a size record can be read back: its first four bytes
/// give the width and its last four the height.
pub proof fn lemma_size_bytes_decode(d: SizeUniformData)
    ensures
        d.encoded().len() == 8,
        le_value(d.encoded().subrange(0, 4)) == d.width,
        le_value(d.encoded().subrange(4, 8)) == d.height,
{
    let e = d.encoded();
    assert(e.subrange(0, 4) =~= le_bytes(d.width));
    assert(e.subrange(4, 8) =~= le_bytes(d.height));
    lemma_le_bytes_value(d.width);
    lemma_le_bytes_value(d.height);
}

} // verus!
