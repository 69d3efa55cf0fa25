//! The low-level resource that a registration refers to.

use vstd::prelude::*;
use vstd::string::*;
use crate::decimal::{
    append_decimal, append_signed_decimal, decimal, decimal_is_injective, signed_decimal,
    signed_decimal_is_injective,
};

verus! {

/// A reference to a resource that the platform can report readiness for.
///
/// The value is only a name for the resource. Holding one neither keeps the
/// resource open nor closes it: that stays with the resource's owner.
#[derive(Clone, Copy, Debug, PartialEq, Eq, Structural)]
pub enum Waitable {
    /// An integer descriptor, as Unix-like platforms hand out.
    Descriptor(i32),
    /// An opaque handle to a wait object, as capability-based platforms hand out.
    Handle(u64),
}

impl Waitable {
    /// The text by which diagnostics show the resource: the name of its kind,
    /// then its raw value as a decimal numeral in round brackets.
    pub open spec fn rendering(self) -> Seq<char> {
        match self {
            Waitable::Descriptor(fd) => "Descriptor("@ + signed_decimal(fd as int) + ")"@,
            Waitable::Handle(handle) => "Handle("@ + decimal(handle as nat) + ")"@,
        }
    }

    /// The text by which diagnostics show the resource.
    pub fn describe(&self) -> (text: String)
        ensures
            text@ == self.rendering(),
    {
        let mut text = String::new();
        match self {
            Waitable::Descriptor(fd) => {
                text.append("Descriptor(");
                append_signed_decimal(&mut text, *fd);
            },
            Waitable::Handle(handle) => {
                text.append("Handle(");
                append_decimal(&mut text, *handle);
            },
        }
        text.append(")");
        text
    }
}

/// The text of a resource shows which resource it is: two resources with the
/// same text are the same resource.
pub proof fn rendering_tells_resources_apart(one: Waitable, other: Waitable)
    requires
        one.rendering() == other.rendering(),
    ensures
        one == other,
{
    reveal_strlit("Descriptor(");
    reveal_strlit("Handle(");
    reveal_strlit(")");
    assert(one.rendering()[0] == other.rendering()[0]);
    match (one, other) {
        (Waitable::Descriptor(a), Waitable::Descriptor(b)) => {
            let numeral_a = signed_decimal(a as int);
            let numeral_b = signed_decimal(b as int);
            assert(one.rendering().len() == 12 + numeral_a.len());
            assert(other.rendering().len() == 12 + numeral_b.len());
            assert(one.rendering().subrange(11, 11 + numeral_a.len() as int) =~= numeral_a);
            assert(other.rendering().subrange(11, 11 + numeral_b.len() as int) =~= numeral_b);
            signed_decimal_is_injective(a as int, b as int);
        },
        (Waitable::Handle(a), Waitable::Handle(b)) => {
            let numeral_a = decimal(a as nat);
            let numeral_b = decimal(b as nat);
            assert(one.rendering().len() == 8 + numeral_a.len());
            assert(other.rendering().len() == 8 + numeral_b.len());
            assert(one.rendering().subrange(7, 7 + numeral_a.len() as int) =~= numeral_a);
            assert(other.rendering().subrange(7, 7 + numeral_b.len() as int) =~= numeral_b);
            decimal_is_injective(a as nat, b as nat);
        },
        (Waitable::Descriptor(_), Waitable::Handle(_)) => {
            assert(one.rendering()[0] == 'D');
            assert(other.rendering()[0] == 'H');
        },
        (Waitable::Handle(_), Waitable::Descriptor(_)) => {
            assert(one.rendering()[0] == 'H');
            assert(other.rendering()[0] == 'D');
        },
    }
}

} // verus!
