use vstd::prelude::*;

verus! {

/// An owned UTF-8 string handed across the boundary. The holder owns it
/// exactly once and gives it back through `free_string`.
pub struct RawString {
    pub data: String,
}

impl View for RawString {
    type V = Seq<char>;

    open spec fn view(&self) -> Seq<char> {
        self.data@
    }
}

impl RawString {
    /// The canonical empty string; it holds no allocation.
    pub fn empty() -> (r: Self)
        ensures
            r@ == Seq::<char>::empty(),
    {
        RawString { data: String::new() }
    }

    /// Takes over an owned `String` without copying it.
    pub fn from_string(s: String) -> (r: Self)
        ensures
            r@ == s@,
    {
        RawString { data: s }
    }

    /// The string when present, else the empty string.
    pub fn from_option(s: Option<String>) -> (r: Self)
        ensures
            s is None ==> r@ == Seq::<char>::empty(),
            s is Some ==> r@ == s->Some_0@,
    {
        match s {
            None => RawString::empty(),
            Some(s) => RawString::from_string(s),
        }
    }

    /// A read-only view of the characters held.
    pub fn as_str(&self) -> (r: &str)
        ensures
            r@ == self@,
    {
        self.data.as_str()
    }

    /// Gives the owned `String` back.
    pub fn into_string(self) -> (r: String)
        ensures
            r@ == self@,
    {
        self.data
    }
}

/// Releases a string that was handed out; it is dropped here, once.
pub fn free_string(s: RawString) {
    let _owned: String = s.into_string();
}

/// An owned contiguous vector handed across the boundary, released through
/// the matching `free_*` function.
pub struct RawVec<T> {
    pub data: Vec<T>,
}

impl<T: View> View for RawVec<T> {
    type V = Seq<T::V>;

    open spec fn view(&self) -> Seq<T::V> {
        self.data@.map_values(|x: T| x@)
    }
}

impl<T: View> RawVec<T> {
    /// The canonical empty vector; it holds no allocation.
    pub fn empty() -> (r: Self)
        ensures
            r.data@ == Seq::<T>::empty(),
            r@ == Seq::<T::V>::empty(),
    {
        let r = RawVec { data: Vec::new() };
        assert(r@ =~= Seq::<T::V>::empty());
        r
    }

    /// Takes over an owned `Vec` without copying its elements.
    pub fn from_vec(v: Vec<T>) -> (r: Self)
        ensures
            r.data@ == v@,
    {
        RawVec { data: v }
    }

    /// A read-only view of the elements held.
    pub fn as_slice(&self) -> (r: &[T])
        ensures
            r@ == self.data@,
    {
        self.data.as_slice()
    }

    /// The number of elements.
    pub fn len(&self) -> (r: usize)
        ensures
            r == self.data@.len(),
            r == self@.len(),
    {
        self.data.len()
    }

    /// Gives the owned `Vec` back.
    pub fn into_vec(self) -> (r: Vec<T>)
        ensures
            r@ == self.data@,
    {
        self.data
    }
}

/// A list of strings, such as the policy ids behind a decision.
pub type RawStrings = RawVec<RawString>;

/// Releases a list of strings that was handed out, with every string in it.
pub fn free_raw_strings(v: RawStrings) {
    let _owned: Vec<RawString> = v.into_vec();
}

} // verus!
