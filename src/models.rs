use vstd::prelude::*;

verus! {

/// The two authorization levels an account can hold.
#[derive(Clone, Copy, Debug, PartialEq, Eq, Structural)]
pub enum UserRole {
    Student,
    Teacher,
}

/// Difficulty of a course.
#[derive(Clone, Copy, Debug, PartialEq, Eq, Structural)]
pub enum CourseLevel {
    Beginner,
    Intermediate,
    Advanced,
}

/// An account as the store holds it. Identifiers are the 128-bit value of a
/// UUID; instants are seconds since the Unix epoch.
#[derive(Clone, Debug)]
pub struct User {
    pub id: u128,
    pub email: String,
    pub password_hash: String,
    pub name: String,
    pub role: UserRole,
    pub created_at: i64,
    pub updated_at: i64,
}

/// A course as the store holds it.
#[derive(Clone, Debug)]
pub struct Course {
    pub id: u128,
    pub title: String,
    pub description: String,
    pub language: String,
    pub level: CourseLevel,
    pub teacher_id: u128,
    pub created_at: i64,
    pub updated_at: i64,
}

#[derive(Clone, Debug)]
pub struct LoginRequest {
    pub email: String,
    pub password: String,
}

#[derive(Clone, Debug)]
pub struct RegisterRequest {
    pub email: String,
    pub password: String,
    pub name: String,
    pub role: UserRole,
}

/// What a successful login or registration hands back.
#[derive(Clone, Debug)]
pub struct AuthResponse {
    pub token: String,
    pub user: UserResponse,
}

/// The outward view of an account: it has no field for the password hash.
#[derive(Clone, Debug)]
pub struct UserResponse {
    pub id: u128,
    pub email: String,
    pub name: String,
    pub role: UserRole,
}

#[derive(Clone, Debug)]
pub struct CreateCourseRequest {
    pub title: String,
    pub description: String,
    pub language: String,
    pub level: CourseLevel,
}

impl UserResponse {
    /// The outward view of `user`, which drops its password hash.
    pub fn from_user(user: User) -> (r: UserResponse)
        ensures
            r.id == user.id,
            r.email@ == user.email@,
            r.name@ == user.name@,
            r.role == user.role,
    {
        UserResponse { id: user.id, email: user.email, name: user.name, role: user.role }
    }
}

} // verus!

verus! {

/// An account about to be stored: a fresh id and the digest of its password.
#[derive(Clone, Debug)]
pub struct NewUser {
    pub id: u128,
    pub email: String,
    pub password_hash: String,
    pub name: String,
    pub role: UserRole,
}

} // verus!
