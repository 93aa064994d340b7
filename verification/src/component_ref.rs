//! Capability wrappers over a replicated component.
//!
//! Four paired wrappers give replication code uniform access to one
//! component value, whatever the engine's underlying storage strategy:
//! typed read-only, typed read/write, type-erased read-only and
//! type-erased read/write. Each wrapper owns one implementor of the
//! matching access-capability trait and forwards the dereference call to
//! it, with no further logic.

use core::marker::PhantomData;
use vstd::prelude::*;

verus! {

/// Registry bound enumerating the replicable component types of one
/// application protocol. It is consumed only as a generic bound and never
/// inspected here.
pub trait ProtocolType {

}

/// Marker contract a component type must satisfy to be eligible for
/// replication under protocol `P`. The component is consumed as an opaque
/// payload; how it serializes is defined elsewhere.
pub trait ReplicateSafe<P: ProtocolType> {

}

/// The type-erased form of a component: the minimal surface replication
/// needs without knowing the concrete type — a protocol type tag and the
/// replicated bytes.
pub struct ReplicatedValue {
    /// Identifies the concrete component type within the protocol registry.
    pub type_tag: u16,
    /// The component's replicated bytes, as produced by the wire-encoding
    /// layer outside this crate.
    pub bytes: Vec<u8>,
}

/// Read-only access capability over a component of concrete type `R`: the
/// implementor may hold a borrowed reference, an index into a table, or
/// any other locator. `component_spec` is the component value it reaches.
pub trait ComponentRefTrait<P: ProtocolType, R: ReplicateSafe<P>> {
    /// The component value this accessor currently reaches.
    spec fn component_spec(&self) -> R;

    /// Borrows exactly the component value the accessor reaches.
    fn component_deref(&self) -> (r: &R)
        ensures
            *r == self.component_spec(),
    ;
}

/// Read/write access capability over a component of concrete type `R`.
/// A mutable accessor can always also be read, mirroring the read/write
/// capability hierarchy of the underlying storage.
pub trait ComponentMutTrait<P: ProtocolType, R: ReplicateSafe<P>>: ComponentRefTrait<P, R> {
    /// Mutably borrows exactly the component value the accessor reaches;
    /// whatever the caller writes through the borrow is the value the
    /// accessor reaches afterwards.
    fn component_deref_mut(&mut self) -> (r: &mut R)
        ensures
            *r == old(self).component_spec(),
            final(self).component_spec() == *final(r),
    ;
}

/// Owning typed read-only view over one component: wraps any implementor
/// of [`ComponentRefTrait`] and forwards the dereference call to it, with
/// no further logic.
pub struct ComponentRef<P: ProtocolType, R: ReplicateSafe<P>, I: ComponentRefTrait<P, R>> {
    inner: Box<I>,
    _protocol: PhantomData<(P, R)>,
}

impl<P: ProtocolType, R: ReplicateSafe<P>, I: ComponentRefTrait<P, R>> ComponentRef<P, R, I> {
    /// The component value the wrapped accessor currently reaches.
    pub closed spec fn component_spec(&self) -> R {
        self.inner.component_spec()
    }

    /// Wraps `inner`; construction cannot fail.
    pub fn new(inner: I) -> (s: Self)
        ensures
            s.component_spec() == inner.component_spec(),
    {
        Self { inner: Box::new(inner), _protocol: PhantomData }
    }

    /// Borrows exactly the component value the wrapped accessor reaches.
    pub fn component_deref(&self) -> (r: &R)
        ensures
            *r == self.component_spec(),
    {
        self.inner.component_deref()
    }
}

/// Owning typed read/write view over one component: wraps any implementor
/// of [`ComponentMutTrait`] and forwards both dereference calls to it,
/// with no further logic. Its existence implies no other live accessor to
/// the same component; that exclusivity is the owning engine's
/// discipline.
pub struct ComponentMut<P: ProtocolType, R: ReplicateSafe<P>, I: ComponentMutTrait<P, R>> {
    inner: Box<I>,
    _protocol: PhantomData<(P, R)>,
}

impl<P: ProtocolType, R: ReplicateSafe<P>, I: ComponentMutTrait<P, R>> ComponentMut<P, R, I> {
    /// The component value the wrapped accessor currently reaches.
    pub closed spec fn component_spec(&self) -> R {
        self.inner.component_spec()
    }

    /// Wraps `inner`; construction cannot fail.
    pub fn new(inner: I) -> (s: Self)
        ensures
            s.component_spec() == inner.component_spec(),
    {
        Self { inner: Box::new(inner), _protocol: PhantomData }
    }

    /// Borrows exactly the component value the wrapped accessor reaches.
    pub fn component_deref(&self) -> (r: &R)
        ensures
            *r == self.component_spec(),
    {
        self.inner.component_deref()
    }

    /// Mutably borrows exactly the component value the wrapped accessor
    /// reaches; a write through the borrow is visible through any
    /// dereference taken afterwards.
    pub fn component_deref_mut(&mut self) -> (r: &mut R)
        ensures
            *r == old(self).component_spec(),
            final(self).component_spec() == *final(r),
    {
        self.inner.component_deref_mut()
    }
}

/// The simplest access-capability implementor: it owns the component
/// value outright. Other implementors supplied by the engine may instead
/// hold an index into a table or any other locator.
pub struct OwnedComponent<P: ProtocolType, R: ReplicateSafe<P>> {
    value: R,
    _protocol: PhantomData<P>,
}

impl<P: ProtocolType, R: ReplicateSafe<P>> OwnedComponent<P, R> {
    /// An accessor owning `value`.
    pub fn new(value: R) -> (s: Self)
        ensures
            s.component_spec() == value,
    {
        Self { value, _protocol: PhantomData }
    }
}

impl<P: ProtocolType, R: ReplicateSafe<P>> ComponentRefTrait<P, R> for OwnedComponent<P, R> {
    closed spec fn component_spec(&self) -> R {
        self.value
    }

    fn component_deref(&self) -> (r: &R) {
        &self.value
    }
}

impl<P: ProtocolType, R: ReplicateSafe<P>> ComponentMutTrait<P, R> for OwnedComponent<P, R> {
    fn component_deref_mut(&mut self) -> (r: &mut R) {
        &mut self.value
    }
}

/// Read-only access capability over a component whose concrete type is
/// erased: the accessor reaches the component in its [`ReplicatedValue`]
/// form.
pub trait ComponentDynRefTrait<P: ProtocolType> {
    /// The erased component value this accessor currently reaches.
    spec fn component_dyn_spec(&self) -> ReplicatedValue;

    /// Borrows exactly the erased component value the accessor reaches.
    fn component_dyn_deref(&self) -> (r: &ReplicatedValue)
        ensures
            *r == self.component_dyn_spec(),
    ;
}

/// Read/write access capability over a component whose concrete type is
/// erased. A mutable accessor can always also be read.
pub trait ComponentDynMutTrait<P: ProtocolType>: ComponentDynRefTrait<P> {
    /// Mutably borrows exactly the erased component value the accessor
    /// reaches; whatever the caller writes through the borrow is the
    /// value the accessor reaches afterwards.
    fn component_dyn_deref_mut(&mut self) -> (r: &mut ReplicatedValue)
        ensures
            *r == old(self).component_dyn_spec(),
            final(self).component_dyn_spec() == *final(r),
    ;
}

/// Owning type-erased read-only view over one component: wraps any
/// implementor of [`ComponentDynRefTrait`] and forwards the dereference
/// call to it, with no further logic.
pub struct ComponentDynRef<P: ProtocolType, I: ComponentDynRefTrait<P>> {
    inner: Box<I>,
    _protocol: PhantomData<P>,
}

impl<P: ProtocolType, I: ComponentDynRefTrait<P>> ComponentDynRef<P, I> {
    /// The erased component value the wrapped accessor currently reaches.
    pub closed spec fn component_dyn_spec(&self) -> ReplicatedValue {
        self.inner.component_dyn_spec()
    }

    /// Wraps `inner`; construction cannot fail.
    pub fn new(inner: I) -> (s: Self)
        ensures
            s.component_dyn_spec() == inner.component_dyn_spec(),
    {
        Self { inner: Box::new(inner), _protocol: PhantomData }
    }

    /// Borrows exactly the erased component value the wrapped accessor
    /// reaches.
    pub fn component_dyn_deref(&self) -> (r: &ReplicatedValue)
        ensures
            *r == self.component_dyn_spec(),
    {
        self.inner.component_dyn_deref()
    }
}

/// Owning type-erased read/write view over one component: wraps any
/// implementor of [`ComponentDynMutTrait`] and forwards both dereference
/// calls to it, with no further logic. Its existence implies no other
/// live accessor to the same component; that exclusivity is the owning
/// engine's discipline.
pub struct ComponentDynMut<P: ProtocolType, I: ComponentDynMutTrait<P>> {
    inner: Box<I>,
    _protocol: PhantomData<P>,
}

impl<P: ProtocolType, I: ComponentDynMutTrait<P>> ComponentDynMut<P, I> {
    /// The erased component value the wrapped accessor currently reaches.
    pub closed spec fn component_dyn_spec(&self) -> ReplicatedValue {
        self.inner.component_dyn_spec()
    }

    /// Wraps `inner`; construction cannot fail.
    pub fn new(inner: I) -> (s: Self)
        ensures
            s.component_dyn_spec() == inner.component_dyn_spec(),
    {
        Self { inner: Box::new(inner), _protocol: PhantomData }
    }

    /// Borrows exactly the erased component value the wrapped accessor
    /// reaches.
    pub fn component_dyn_deref(&self) -> (r: &ReplicatedValue)
        ensures
            *r == self.component_dyn_spec(),
    {
        self.inner.component_dyn_deref()
    }

    /// Mutably borrows exactly the erased component value the wrapped
    /// accessor reaches; a write through the borrow is visible through
    /// any dereference taken afterwards.
    pub fn component_dyn_deref_mut(&mut self) -> (r: &mut ReplicatedValue)
        ensures
            *r == old(self).component_dyn_spec(),
            final(self).component_dyn_spec() == *final(r),
    {
        self.inner.component_dyn_deref_mut()
    }
}

/// The simplest type-erased access-capability implementor: it owns the
/// erased component value outright.
pub struct OwnedReplicatedValue<P: ProtocolType> {
    value: ReplicatedValue,
    _protocol: PhantomData<P>,
}

impl<P: ProtocolType> OwnedReplicatedValue<P> {
    /// An accessor owning `value`.
    pub fn new(value: ReplicatedValue) -> (s: Self)
        ensures
            s.component_dyn_spec() == value,
    {
        Self { value, _protocol: PhantomData }
    }
}

impl<P: ProtocolType> ComponentDynRefTrait<P> for OwnedReplicatedValue<P> {
    closed spec fn component_dyn_spec(&self) -> ReplicatedValue {
        self.value
    }

    fn component_dyn_deref(&self) -> (r: &ReplicatedValue) {
        &self.value
    }
}

impl<P: ProtocolType> ComponentDynMutTrait<P> for OwnedReplicatedValue<P> {
    fn component_dyn_deref_mut(&mut self) -> (r: &mut ReplicatedValue) {
        &mut self.value
    }
}

} // verus!
