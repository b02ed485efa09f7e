//! Code that differs from one compilation target to the next.
//!
//! The compiler decides which items a build contains and which branch a
//! target test selects. Here the target is an ordinary value, [`Target`], so
//! that every item can say for which targets it is built, and every
//! constructor what it yields on each of them.

use crate::text::{contains_text, str_eq, texts};
use vstd::prelude::*;

pub mod build_mode;
pub mod combined;
pub mod cross_platform;
pub mod laws;
pub mod report;
pub mod single_os;

verus! {

/// What a build knows of the machine it is made for.
pub struct Target {
    /// Name of the operating system, such as `linux`, `macos` or `windows`.
    pub os: String,
    /// Name of the processor architecture, such as `x86_64` or `aarch64`.
    pub arch: String,
    /// Name of the family of operating systems, such as `unix` or `windows`;
    /// empty where the system belongs to none.
    pub family: String,
    /// Width of a pointer, in bits.
    pub pointer_width: u32,
    /// Whether debug assertions are compiled in.
    pub debug_assertions: bool,
    /// The optional features that are switched on.
    pub features: Vec<String>,
}

impl Target {
    /// The operating system is `name`.
    pub open spec fn os_is(&self, name: Seq<char>) -> bool {
        self.os@ == name
    }

    /// The architecture is `name`.
    pub open spec fn arch_is(&self, name: Seq<char>) -> bool {
        self.arch@ == name
    }

    /// The family of operating systems is `name`.
    pub open spec fn family_is(&self, name: Seq<char>) -> bool {
        self.family@ == name
    }

    /// The feature `name` is switched on.
    pub open spec fn has_feature(&self, name: Seq<char>) -> bool {
        texts(self.features@).contains(name)
    }

    /// Tests the operating system's name.
    pub fn is_os(&self, name: &str) -> (r: bool)
        ensures
            r == self.os_is(name@),
    {
        str_eq(self.os.as_str(), name)
    }

    /// Tests the architecture's name.
    pub fn is_arch(&self, name: &str) -> (r: bool)
        ensures
            r == self.arch_is(name@),
    {
        str_eq(self.arch.as_str(), name)
    }

    /// Tests the name of the family of operating systems.
    pub fn is_family(&self, name: &str) -> (r: bool)
        ensures
            r == self.family_is(name@),
    {
        str_eq(self.family.as_str(), name)
    }

    /// Tests whether a feature is switched on.
    pub fn is_feature_enabled(&self, name: &str) -> (r: bool)
        ensures
            r == self.has_feature(name@),
    {
        contains_text(&self.features, name)
    }
}

/// An item that is part of the build for some targets only.
pub trait Conditional {
    /// The condition under which a build for `target` contains the item.
    spec fn built_for(target: &Target) -> bool;

    /// Evaluates the condition for `target`.
    fn is_built_for(target: &Target) -> (built: bool)
        ensures
            built == Self::built_for(target),
    ;
}

} // verus!
