use vstd::prelude::*;

verus! {

/// Reusable text buffer for building JSON messages without reallocating.
pub struct JsonBuffer {
    buffer: String,
}

/// `String::with_capacity`: an empty string with room for at least `capacity` bytes.
#[verifier::external_body]
fn string_with_capacity(capacity: usize) -> (s: String)
    ensures
        s@ == Seq::<char>::empty(),
{
    String::with_capacity(capacity)
}

/// `String::clear`: removes the contents and keeps the allocation.
#[verifier::external_body]
fn string_clear(s: &mut String)
    ensures
        final(s)@ == Seq::<char>::empty(),
{
    s.clear()
}

impl View for JsonBuffer {
    type V = Seq<char>;

    closed spec fn view(&self) -> Seq<char> {
        self.buffer@
    }
}

impl JsonBuffer {
    /// A new empty buffer with room for `capacity` bytes.
    pub fn new(capacity: usize) -> (b: Self)
        ensures
            b@ == Seq::<char>::empty(),
    {
        let buffer = string_with_capacity(capacity);
        JsonBuffer { buffer }
    }

    /// Empties the buffer, keeping its allocation.
    pub fn clear(&mut self)
        ensures
            final(self)@ == Seq::<char>::empty(),
    {
        string_clear(&mut self.buffer);
    }

    /// The current contents.
    pub fn as_str(&self) -> (s: &str)
        ensures
            s@ == self@,
    {
        self.buffer.as_str()
    }

    /// Mutable access to the underlying string; what is written through it
    /// becomes the buffer's contents.
    pub fn as_mut_string(&mut self) -> (s: &mut String)
        ensures
            s@ == old(self)@,
            final(self)@ == final(s)@,
    {
        &mut self.buffer
    }
}

impl Default for JsonBuffer {
    fn default() -> (b: Self)
        ensures
            b@ == Seq::<char>::empty(),
    {
        Self::new(512)
    }
}

} // verus!
