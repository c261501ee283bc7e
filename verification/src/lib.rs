//! A small value library for numbers, characters and sizes.
//!
//! Its one module, `ncs`, models the 24 letters of the Greek alphabet as a
//! closed enumeration with an explicit `Empty` sentinel, together with
//! conversions to and from characters, strings and integers, and cyclic
//! arithmetic over the alphabet.

pub mod ncs;
