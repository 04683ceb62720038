//! Traits: shared behaviour over an unknown `Self`.
//!
//! A Verus trait pairs each method with a spec function, so every
//! implementor promises the same relation between input and output.
//! The default method's contract is stated once and holds for all
//! implementors.

use vstd::prelude::*;

verus! {

/// Rendering a value as text, in two forms.
pub trait Show: Sized {
    /// The alternative rendering's carrier type; its view is the
    /// character sequence it holds.
    type AltShowType: View<V = Seq<char>>;

    /// The characters this value shows as.
    spec fn show_spec(&self) -> Seq<char>;

    /// Re-renders an already rendered string into the carrier type,
    /// keeping its characters.
    fn alt_show(s: String) -> (r: Self::AltShowType)
        ensures
            r@ == s@,
    ;

    /// Renders the value.
    fn show(&self) -> (s: String)
        ensures
            s@ == self.show_spec(),
    ;

    /// Renders the value and appends "world"; a default method shared
    /// by every implementor.
    fn show_twice(&self) -> (s: String)
        ensures
            s@ == self.show_spec() + "world"@,
    {
        let mut owned_string: String = self.show();
        let borrowed_string: &str = "world";
        owned_string.append(borrowed_string);
        owned_string
    }
}

/// An account record that shows as its username.
pub struct User {
    pub active: bool,
    pub sign_in_count: u64,
    pub username: String,
}

impl Show for User {
    type AltShowType = Vec<char>;

    open spec fn show_spec(&self) -> Seq<char> {
        self.username@
    }

    /// Collects the string's characters one by one.
    fn alt_show(s: String) -> (r: Self::AltShowType)
        ensures
            r@ == s@,
    {
        let mut v: Vec<char> = Vec::new();
        let n: usize = s.as_str().unicode_len();
        let mut i: usize = 0;
        while i < n
            invariant
                n == s@.len(),
                0 <= i <= n,
                v@ == s@.subrange(0, i as int),
            decreases n - i,
        {
            v.push(s.as_str().get_char(i));
            assert(v@ =~= s@.subrange(0, i + 1 as int));
            i += 1;
        }
        assert(v@ =~= s@);
        v
    }

    fn show(&self) -> (s: String)
        ensures
            s@ == self.show_spec(),
    {
        self.username.clone()
    }
}

/// A user named "hello" shows twice as "helloworld", and its plain
/// rendering decomposes into exactly the five characters of "hello".
pub fn using_traits_example() -> (r: (String, Vec<char>))
    ensures
        r.0@ == "hello"@ + "world"@,
        r.1@ == "hello"@,
{
    let user1: User = User {
        active: true,
        sign_in_count: 0,
        username: String::from_str("hello"),
    };
    let s: String = user1.show_twice();
    let v: Vec<char> = User::alt_show(user1.show());
    (s, v)
}

} // verus!
