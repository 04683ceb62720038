//! Structs: building, reading, mutating, and transferring them.
//!
//! A struct is a product of fields, and its contracts speak field by
//! field. Moving, copying or cloning a struct preserves every field;
//! which bindings stay usable is the borrow checker's business, shown
//! in the bodies.

use vstd::prelude::*;

verus! {

/// An account record owning two heap strings.
pub struct User {
    pub active: bool,
    pub sign_in_count: u64,
    pub username: String,
}

/// Builds a fresh, active user with the given name.
pub fn build_user(username: String) -> (u: User)
    ensures
        u.active == true,
        u.sign_in_count == 1,
        u.username == username,
{
    User { active: true, sign_in_count: 1, username }
}

/// Creates a user, reads a field, mutates a field, and derives a second
/// user from the first with struct-update syntax.
pub fn using_structs() -> (r: (bool, User))
    ensures
        r.0 == true,
        r.1.active == false,
        r.1.sign_in_count == 1,
        r.1.username@ == "anotherexample"@,
{
    let mut user1: User = User {
        active: true,
        sign_in_count: 1,
        username: String::from_str("someusername123"),
    };
    let b: bool = user1.active;
    user1.active = false;

    let user2: User = User { username: String::from_str("anotherexample"), ..user1 };
    (b, user2)
}

/// Fields inherit mutability from the binding that owns the struct:
/// after the move to a `mut` binding, the field can be written.
pub fn mutability_in_structs() -> (u: User)
    ensures
        u.active == false,
        u.sign_in_count == 1,
        u.username@ == "someusername123"@,
{
    let immut_user: User = User {
        active: true,
        sign_in_count: 1,
        username: String::from_str("someusername123"),
    };
    let b: bool = immut_user.active;

    let mut mut_user: User = immut_user;
    mut_user.active = false;
    mut_user
}

/// A record whose string fields can only move or clone.
pub struct UserMove {
    pub active: bool,
    pub sign_in_count: u64,
    pub username: String,
    pub email: String,
}

/// Full and partial moves, copies and clones of a struct; every
/// transfer leaves the field values themselves intact.
pub fn move_struct() -> (r: (bool, UserMove))
    ensures
        r.0 == true,
        r.1.active == true,
        r.1.sign_in_count == 1,
        r.1.username@ == "someusername123"@,
        r.1.email@ == "someusername123"@,
{
    let mut moveable_user: UserMove = UserMove {
        active: true,
        sign_in_count: 1,
        username: String::from_str("someusername123"),
        email: String::from_str("someusername123"),
    };

    // Full move: the whole struct changes owner, fields unchanged.
    let moved_user: UserMove = moveable_user;
    moveable_user = moved_user;

    // Partial move: one string field changes owner, then is put back.
    let moved_username: String = moveable_user.username;
    moveable_user.username = moved_username;

    // Partial copy: a `bool` field is copied, the struct stays whole.
    let copied_active: bool = moveable_user.active;

    // Partial clone: an independent copy of a string field.
    let cloned_username: String = moveable_user.username.clone();

    (copied_active, moveable_user)
}

/// A record of stack-only fields; assigning it copies it.
#[derive(Clone, Copy)]
pub struct UserCopy {
    pub active: bool,
    pub sign_in_count: u64,
}

/// A full copy leaves the source usable and equal to the copy.
pub fn copy_struct() -> (r: (UserCopy, UserCopy, bool))
    ensures
        r.0.active == true,
        r.0.sign_in_count == 1,
        r.1 == r.0,
        r.2 == r.0.active,
{
    let copyable_user: UserCopy = UserCopy { active: true, sign_in_count: 1 };

    let copied_user: UserCopy = copyable_user;

    let copied_active: bool = copyable_user.active;

    (copyable_user, copied_user, copied_active)
}

/// A record that can be cloned but not copied.
pub struct UserClone {
    pub active: bool,
    pub sign_in_count: u64,
    pub email: String,
}

impl Clone for UserClone {
    /// A clone repeats every field, including an independent copy of
    /// the heap string.
    fn clone(&self) -> (r: Self)
        ensures
            r.active == self.active,
            r.sign_in_count == self.sign_in_count,
            r.email == self.email,
    {
        UserClone {
            active: self.active,
            sign_in_count: self.sign_in_count,
            email: self.email.clone(),
        }
    }
}

/// A full clone gives a second owner with equal fields; the original
/// stays valid.
pub fn clone_struct() -> (r: (UserClone, UserClone))
    ensures
        r.0.active == true,
        r.0.sign_in_count == 1,
        r.0.email@ == "someusername123"@,
        r.1.active == r.0.active,
        r.1.sign_in_count == r.0.sign_in_count,
        r.1.email@ == r.0.email@,
{
    let cloneable_user: UserClone = UserClone {
        active: true,
        sign_in_count: 1,
        email: String::from_str("someusername123"),
    };

    let cloned_user: UserClone = cloneable_user.clone();

    let cloned_email: String = cloneable_user.email.clone();

    (cloneable_user, cloned_user)
}

/// A person whose fields are borrowed, moved, copied and cloned in turn.
pub struct Person {
    pub first_name: String,
    pub last_name: String,
    pub age: u8,
    pub id: Box<u8>,
}

/// One field is borrowed, one moved, one copied and one cloned; the
/// values read are exactly the ones stored.
pub fn partial_move_copy_clone_reference() -> (r: (usize, String, u8, u8, u8))
    ensures
        r.0 == 5,
        r.1@ == "Smith"@,
        r.2 == 20,
        r.3 == 0,
        r.4 == 20,
{
    let person: Person = Person {
        first_name: String::from_str("Alice"),
        last_name: String::from_str("Smith"),
        age: 20,
        id: Box::new(0),
    };
    proof {
        reveal_strlit("Alice");
    }

    let first_name: &String = &person.first_name;
    let name_len: usize = first_name.as_str().unicode_len();

    let last_name: String = person.last_name;
    let age: u8 = person.age;
    let id: Box<u8> = person.id.clone();

    (name_len, last_name, age, *id, person.age)
}

/// A record of two stack fields, moved whole to a second owner.
pub struct PlainUser {
    pub active: bool,
    pub sign_in_count: u64,
}

/// Moving a struct of stack-only fields: the new owner holds the same
/// field values.
pub fn structs_ownership() -> (u: PlainUser)
    ensures
        u.active == true,
        u.sign_in_count == 1,
{
    let user1: PlainUser = PlainUser { active: true, sign_in_count: 1 };
    let user2: PlainUser = user1;
    user2
}

/// Creating, reading, mutating and deriving a user record; the derived
/// record keeps the mutated flag and count, with a new name.
pub fn structs_usage() -> (r: (bool, UserMove))
    ensures
        r.0 == true,
        r.1.active == false,
        r.1.sign_in_count == 1,
        r.1.username@ == "anotherexample"@,
        r.1.email@ == "someone"@,
{
    let mut user1: UserMove = UserMove {
        active: true,
        sign_in_count: 1,
        username: String::from_str("someusername123"),
        email: String::from_str("someone"),
    };
    let b: bool = user1.active;
    user1.active = false;

    let user2: UserMove = UserMove { username: String::from_str("anotherexample"), ..user1 };
    (b, user2)
}

} // verus!
