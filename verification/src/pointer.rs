//! Typed device pointers.
//!
//! A device pointer is a device-virtual address tagged with the type it
//! points to. The CPU never dereferences one: it is a value written into
//! another object's mirror so that firmware can follow it.

use std::cmp::Ordering;
use std::marker::PhantomData;
use vstd::prelude::*;

verus! {

/// A non-null device address of a `T`, borrowed from the object that owns
/// the memory.
pub struct GpuPointer<'a, T: ?Sized> {
    addr: u64,
    _p: PhantomData<&'a T>,
}

/// A non-null device address of a `T` that tracks no borrow and is freely
/// copied; for back-references and self-references inside mirrors.
pub struct GpuWeakPointer<T: ?Sized> {
    addr: u64,
    _p: PhantomData<T>,
}

/// The hexadecimal digit, in lower case, that stands for `d`.
pub open spec fn hex_digit(d: nat) -> char {
    if d == 0 {
        '0'
    } else if d == 1 {
        '1'
    } else if d == 2 {
        '2'
    } else if d == 3 {
        '3'
    } else if d == 4 {
        '4'
    } else if d == 5 {
        '5'
    } else if d == 6 {
        '6'
    } else if d == 7 {
        '7'
    } else if d == 8 {
        '8'
    } else if d == 9 {
        '9'
    } else if d == 10 {
        'a'
    } else if d == 11 {
        'b'
    } else if d == 12 {
        'c'
    } else if d == 13 {
        'd'
    } else if d == 14 {
        'e'
    } else {
        'f'
    }
}

/// The digits of `n` in base sixteen, without leading zeros.
pub open spec fn hex_digits(n: nat) -> Seq<char>
    decreases n,
{
    if n < 16 {
        seq![hex_digit(n)]
    } else {
        hex_digits(n / 16).push(hex_digit(n % 16))
    }
}

/// How a pointer is shown for diagnostics: the address in base sixteen
/// behind `0x`, then the name of the type pointed to in round brackets.
pub open spec fn pointer_text(addr: u64, pointee: Seq<char>) -> Seq<char> {
    seq!['0', 'x'] + hex_digits(addr as nat) + seq![' ', '('] + pointee + seq![')']
}

/// Calls `format!` with an address under `{:#x}`, which writes it in base
/// sixteen with lower-case digits behind `0x`, and a name under `{}`,
/// which writes it as it is. The contract says which text that is.
#[verifier::external_body]
fn format_pointer(addr: u64, pointee: &str) -> (r: String)
    ensures
        r@ == pointer_text(addr, pointee@),
{
    format!("{:#x} ({})", addr, pointee)
}

impl<'a, T: ?Sized> GpuPointer<'a, T> {
    #[verifier::type_invariant]
    spec fn nonnull(self) -> bool {
        self.addr != 0
    }

    /// The device address.
    pub closed spec fn addr(&self) -> u64 {
        self.addr
    }

    pub(crate) fn from_address(addr: u64) -> (r: Self)
        requires
            addr != 0,
        ensures
            r.addr() == addr,
    {
        GpuPointer { addr, _p: PhantomData }
    }

    /// The device address, which is never zero.
    pub fn get(&self) -> (r: u64)
        ensures
            r == self.addr(),
            r != 0,
    {
        proof {
            use_type_invariant(self);
        }
        self.addr
    }

    /// The pointer as it is shown for diagnostics: its address and
    /// `pointee`, the name of the type that it points to.
    pub fn debug_string(&self, pointee: &str) -> (r: String)
        ensures
            r@ == pointer_text(self.addr(), pointee@),
    {
        format_pointer(self.addr, pointee)
    }

    /// The pointer with the bits of `other` set in its address.
    pub fn or(&self, other: u64) -> (r: GpuPointer<'a, T>)
        ensures
            r.addr() == self.addr() | other,
    {
        proof {
            use_type_invariant(self);
        }
        let a: u64 = self.addr;
        assert(a != 0 ==> (a | other) != 0) by (bit_vector);
        GpuPointer { addr: a | other, _p: PhantomData }
    }

    /// The pointer to a `U` that lies `off` bytes behind this address.
    pub fn offset<U>(&self, off: usize) -> (r: GpuPointer<'a, U>)
        requires
            self.addr() + off <= u64::MAX,
        ensures
            r.addr() == self.addr() + off,
    {
        proof {
            use_type_invariant(self);
        }
        GpuPointer { addr: self.addr + (off as u64), _p: PhantomData }
    }
}

impl<T: ?Sized> Clone for GpuWeakPointer<T> {
    fn clone(&self) -> (r: Self)
        ensures
            r == *self,
    {
        proof {
            use_type_invariant(self);
        }
        GpuWeakPointer { addr: self.addr, _p: PhantomData }
    }
}

impl<T: ?Sized> Copy for GpuWeakPointer<T> {

}

impl<T: ?Sized> GpuWeakPointer<T> {
    #[verifier::type_invariant]
    spec fn nonnull(self) -> bool {
        self.addr != 0
    }

    /// The device address.
    pub closed spec fn addr(&self) -> u64 {
        self.addr
    }

    pub(crate) fn from_address(addr: u64) -> (r: Self)
        requires
            addr != 0,
        ensures
            r.addr() == addr,
    {
        GpuWeakPointer { addr, _p: PhantomData }
    }

    /// The device address, which is never zero.
    pub fn get(&self) -> (r: u64)
        ensures
            r == self.addr(),
            r != 0,
    {
        proof {
            use_type_invariant(self);
        }
        self.addr
    }

    /// The pointer as it is shown for diagnostics: its address and
    /// `pointee`, the name of the type that it points to.
    pub fn debug_string(&self, pointee: &str) -> (r: String)
        ensures
            r@ == pointer_text(self.addr(), pointee@),
    {
        format_pointer(self.addr, pointee)
    }

    /// The pointer with the bits of `other` set in its address.
    pub fn or(&self, other: u64) -> (r: GpuWeakPointer<T>)
        ensures
            r.addr() == self.addr() | other,
    {
        proof {
            use_type_invariant(self);
        }
        let a: u64 = self.addr;
        assert(a != 0 ==> (a | other) != 0) by (bit_vector);
        GpuWeakPointer { addr: a | other, _p: PhantomData }
    }

    /// The pointer to a `U` that lies `off` bytes behind this address.
    pub fn offset<U>(&self, off: usize) -> (r: GpuWeakPointer<U>)
        requires
            self.addr() + off <= u64::MAX,
        ensures
            r.addr() == self.addr() + off,
    {
        proof {
            use_type_invariant(self);
        }
        GpuWeakPointer { addr: self.addr + (off as u64), _p: PhantomData }
    }
}


/// Pointers are equal where their addresses are.
impl<'a, T: ?Sized> PartialEq for GpuPointer<'a, T> {
    fn eq(&self, other: &Self) -> (r: bool) {
        self.addr == other.addr
    }
}

impl<'a, T: ?Sized> vstd::std_specs::cmp::PartialEqSpecImpl for GpuPointer<'a, T> {
    open spec fn obeys_eq_spec() -> bool {
        true
    }

    open spec fn eq_spec(&self, other: &Self) -> bool {
        self.addr() == other.addr()
    }
}

/// Pointers are ordered as their addresses are.
impl<'a, T: ?Sized> PartialOrd for GpuPointer<'a, T> {
    fn partial_cmp(&self, other: &Self) -> (r: Option<Ordering>) {
        if self.addr < other.addr {
            Some(Ordering::Less)
        } else if self.addr == other.addr {
            Some(Ordering::Equal)
        } else {
            Some(Ordering::Greater)
        }
    }
}

impl<'a, T: ?Sized> vstd::std_specs::cmp::PartialOrdSpecImpl for GpuPointer<'a, T> {
    open spec fn obeys_partial_cmp_spec() -> bool {
        true
    }

    open spec fn partial_cmp_spec(&self, other: &Self) -> Option<Ordering> {
        if self.addr() < other.addr() {
            Some(Ordering::Less)
        } else if self.addr() == other.addr() {
            Some(Ordering::Equal)
        } else {
            Some(Ordering::Greater)
        }
    }
}

/// Pointers are equal where their addresses are.
impl<T: ?Sized> PartialEq for GpuWeakPointer<T> {
    fn eq(&self, other: &Self) -> (r: bool) {
        self.addr == other.addr
    }
}

impl<T: ?Sized> vstd::std_specs::cmp::PartialEqSpecImpl for GpuWeakPointer<T> {
    open spec fn obeys_eq_spec() -> bool {
        true
    }

    open spec fn eq_spec(&self, other: &Self) -> bool {
        self.addr() == other.addr()
    }
}

/// Pointers are ordered as their addresses are.
impl<T: ?Sized> PartialOrd for GpuWeakPointer<T> {
    fn partial_cmp(&self, other: &Self) -> (r: Option<Ordering>) {
        if self.addr < other.addr {
            Some(Ordering::Less)
        } else if self.addr == other.addr {
            Some(Ordering::Equal)
        } else {
            Some(Ordering::Greater)
        }
    }
}

impl<T: ?Sized> vstd::std_specs::cmp::PartialOrdSpecImpl for GpuWeakPointer<T> {
    open spec fn obeys_partial_cmp_spec() -> bool {
        true
    }

    open spec fn partial_cmp_spec(&self, other: &Self) -> Option<Ordering> {
        if self.addr() < other.addr() {
            Some(Ordering::Less)
        } else if self.addr() == other.addr() {
            Some(Ordering::Equal)
        } else {
            Some(Ordering::Greater)
        }
    }
}

} // verus!
