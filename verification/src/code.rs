//! Generated shader text, kept as a sequence of chunks.
//!
//! Literal WGSL text is held as `String`s; a number of the scene stays the
//! bit pattern of its `f32` until the text is rendered, where it is printed
//! with four decimals (`{:.4}`). A `Radians` chunk stands for the `f32` angle
//! in degrees whose radian measure is printed the same way.
use vstd::prelude::*;

verus! {

/// One piece of generated code.
pub enum Chunk {
    /// Literal text.
    Text(String),
    /// The `f32` with these bits, printed with four decimals.
    Number(u32),
    /// The `f32` angle in degrees with these bits, converted to radians and
    /// printed with four decimals.
    Radians(u32),
}

/// The mathematical value of a [`Chunk`].
pub enum ChunkView {
    Text(Seq<char>),
    Number(u32),
    Radians(u32),
}

impl View for Chunk {
    type V = ChunkView;

    open spec fn view(&self) -> ChunkView {
        match self {
            Chunk::Text(s) => ChunkView::Text(s@),
            Chunk::Number(b) => ChunkView::Number(*b),
            Chunk::Radians(b) => ChunkView::Radians(*b),
        }
    }
}

impl Chunk {
    /// A copy with the same value.
    pub fn duplicate(&self) -> (r: Chunk)
        ensures
            r@ == self@,
    {
        match self {
            Chunk::Text(s) => Chunk::Text(s.clone()),
            Chunk::Number(b) => Chunk::Number(*b),
            Chunk::Radians(b) => Chunk::Radians(*b),
        }
    }
}

/// A text chunk as a one-element sequence.
pub open spec fn txt(s: Seq<char>) -> Seq<ChunkView> {
    seq![ChunkView::Text(s)]
}

/// A number chunk as a one-element sequence.
pub open spec fn num(b: u32) -> Seq<ChunkView> {
    seq![ChunkView::Number(b)]
}

/// A radians chunk as a one-element sequence.
pub open spec fn rad(b: u32) -> Seq<ChunkView> {
    seq![ChunkView::Radians(b)]
}

/// Generated code: its chunks in order.
pub struct Code {
    pub chunks: Vec<Chunk>,
}

impl View for Code {
    type V = Seq<ChunkView>;

    open spec fn view(&self) -> Seq<ChunkView> {
        self.chunks@.map_values(|c: Chunk| c@)
    }
}

impl Code {
    /// Empty code.
    pub fn new() -> (r: Code)
        ensures
            r@ == Seq::<ChunkView>::empty(),
    {
        let r = Code { chunks: Vec::new() };
        assert(r@ =~= Seq::<ChunkView>::empty());
        r
    }

    /// Code made of one text chunk.
    pub fn from_text(s: &str) -> (r: Code)
        ensures
            r@ == txt(s@),
    {
        let mut r = Code::new();
        r.push_text(s);
        assert(r@ =~= txt(s@));
        r
    }

    fn push_chunk(&mut self, c: Chunk)
        ensures
            final(self)@ == old(self)@.push(c@),
    {
        self.chunks.push(c);
        assert(self@ =~= old(self)@.push(c@));
    }

    /// Appends a text chunk.
    pub fn push_text(&mut self, s: &str)
        ensures
            final(self)@ == old(self)@ + txt(s@),
    {
        self.push_chunk(Chunk::Text(String::from_str(s)));
        assert(self@ =~= old(self)@ + txt(s@));
    }

    /// Appends a text chunk holding `s`.
    pub fn push_string(&mut self, s: String)
        ensures
            final(self)@ == old(self)@ + txt(s@),
    {
        self.push_chunk(Chunk::Text(s));
        assert(self@ =~= old(self)@ + txt(s@));
    }

    /// Appends a number chunk.
    pub fn push_number(&mut self, b: u32)
        ensures
            final(self)@ == old(self)@ + num(b),
    {
        self.push_chunk(Chunk::Number(b));
        assert(self@ =~= old(self)@ + num(b));
    }

    /// Appends a radians chunk.
    pub fn push_radians(&mut self, b: u32)
        ensures
            final(self)@ == old(self)@ + rad(b),
    {
        self.push_chunk(Chunk::Radians(b));
        assert(self@ =~= old(self)@ + rad(b));
    }

    /// Appends all chunks of `other`, consuming it.
    pub fn append(&mut self, other: Code)
        ensures
            final(self)@ == old(self)@ + other@,
    {
        let ghost added = other@;
        let mut other = other;
        self.chunks.append(&mut other.chunks);
        assert(self@ =~= old(self)@ + added);
    }

    /// Appends copies of all chunks of `other`.
    pub fn append_copy(&mut self, other: &Code)
        ensures
            final(self)@ == old(self)@ + other@,
    {
        let n = other.chunks.len();
        for i in 0..n
            invariant
                n == other.chunks.len(),
                self@ == old(self)@ + other@.take(i as int),
        {
            let c = other.chunks[i].duplicate();
            self.push_chunk(c);
            assert(other@.take(i + 1) =~= other@.take(i as int).push(other@[i as int]));
        }
        assert(other@.take(n as int) =~= other@);
    }
}

} // verus!
