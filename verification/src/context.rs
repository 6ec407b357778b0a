//! An append-only, type-indexed stack of request-scoped values.
//!
//! A context starts from the empty base [`EmptyContext`]; every [`Push::push`]
//! wraps the previous container in a new [`ContextBuilder`] frame. Reading is
//! keyed by type through [`Has::get`]: the innermost frame of the requested
//! type wins, so a later push of the same type shadows an earlier one.

use crate::auth::Authorization;
use crate::XSpanIdString;
use vstd::prelude::*;

verus! {

/// The empty base container: no retrievable frames.
#[derive(Debug, Clone)]
pub struct EmptyContext;

impl Default for EmptyContext {
    /// The empty container, constructible with no arguments.
    fn default() -> (r: Self)
        ensures
            r == EmptyContext,
    {
        EmptyContext
    }
}

/// One frame of a context: a value of type `T` on top of the container `C`.
#[derive(Debug, Clone)]
pub struct ContextBuilder<T, C> {
    /// The value held by this frame.
    pub item: T,
    /// The container this frame was pushed onto.
    pub next: C,
}

/// A container that accepts a new frame of type `V`.
pub trait Push<V>: Sized {
    /// The type of the extended container.
    type Result;

    /// The extended container, as a mathematical value.
    spec fn pushed(self, v: V) -> Self::Result;

    /// Extend the container with `v`; the old container is consumed whole.
    fn push(self, v: V) -> (r: Self::Result)
        ensures
            r == self.pushed(v),
    ;
}

/// A container from which a value of type `V` can be read.
pub trait Has<V> {
    /// The value that a read by type `V` yields: the innermost frame of that type.
    spec fn peek(&self) -> V;

    /// Read the innermost value of type `V`.
    fn get(&self) -> (r: &V)
        ensures
            *r == self.peek(),
    ;
}

impl<V> Push<V> for EmptyContext {
    type Result = ContextBuilder<V, EmptyContext>;

    open spec fn pushed(self, v: V) -> ContextBuilder<V, EmptyContext> {
        ContextBuilder { item: v, next: self }
    }

    fn push(self, v: V) -> (r: ContextBuilder<V, EmptyContext>) {
        ContextBuilder { item: v, next: self }
    }
}

impl<V, T, C> Push<V> for ContextBuilder<T, C> {
    type Result = ContextBuilder<V, ContextBuilder<T, C>>;

    open spec fn pushed(self, v: V) -> ContextBuilder<V, ContextBuilder<T, C>> {
        ContextBuilder { item: v, next: self }
    }

    fn push(self, v: V) -> (r: ContextBuilder<V, ContextBuilder<T, C>>) {
        ContextBuilder { item: v, next: self }
    }
}

impl<C> Has<XSpanIdString> for ContextBuilder<XSpanIdString, C> {
    open spec fn peek(&self) -> XSpanIdString {
        self.item
    }

    fn get(&self) -> (r: &XSpanIdString) {
        &self.item
    }
}

impl<C: Has<XSpanIdString>> Has<XSpanIdString> for ContextBuilder<Option<Authorization>, C> {
    open spec fn peek(&self) -> XSpanIdString {
        self.next.peek()
    }

    fn get(&self) -> (r: &XSpanIdString) {
        self.next.get()
    }
}

impl<C> Has<Option<Authorization>> for ContextBuilder<Option<Authorization>, C> {
    open spec fn peek(&self) -> Option<Authorization> {
        self.item
    }

    fn get(&self) -> (r: &Option<Authorization>) {
        &self.item
    }
}

impl<C: Has<Option<Authorization>>> Has<Option<Authorization>> for ContextBuilder<
    XSpanIdString,
    C,
> {
    open spec fn peek(&self) -> Option<Authorization> {
        self.next.peek()
    }

    fn get(&self) -> (r: &Option<Authorization>) {
        self.next.get()
    }
}

/// Law: pushing a value onto any container and then reading by its type yields
/// exactly that value, even when the container already holds an older frame of
/// the same type — the new frame shadows it.
pub proof fn lemma_push_then_peek_span<C>(c: ContextBuilder<XSpanIdString, C>, v: XSpanIdString)
    ensures
        c.pushed(v).peek() == v,
{
}

/// Law: pushing an authorization frame and then reading by that type yields
/// exactly the pushed value (shadowing any older authorization frame).
pub proof fn lemma_push_then_peek_auth<C>(
    c: ContextBuilder<Option<Authorization>, C>,
    v: Option<Authorization>,
)
    ensures
        c.pushed(v).peek() == v,
{
}

/// Law: the first identifier frame pushed onto the empty base is read back
/// exactly.
pub proof fn lemma_first_frame_span(v: XSpanIdString)
    ensures
        EmptyContext.pushed(v).peek() == v,
{
}

/// Law: the first authorization frame pushed onto the empty base is read
/// back exactly.
pub proof fn lemma_first_frame_auth(v: Option<Authorization>)
    ensures
        EmptyContext.pushed(v).peek() == v,
{
}

/// Law: in a context built over any base by an identifier frame and then an
/// authorization frame — the shape the injection layer and the stub
/// authenticator hand to the terminal handler — reading by each type yields
/// exactly those two frames: the granted record, and below it the derived
/// identifier.
pub proof fn lemma_chain_frames<C>(base: C, id: XSpanIdString, rec: Option<Authorization>)
    ensures
        ({
            let chained = ContextBuilder { item: rec, next: ContextBuilder { item: id, next: base } };
            &&& <ContextBuilder<Option<Authorization>, ContextBuilder<XSpanIdString, C>> as Has<
                Option<Authorization>,
            >>::peek(&chained) == rec
            &&& <ContextBuilder<Option<Authorization>, ContextBuilder<XSpanIdString, C>> as Has<
                XSpanIdString,
            >>::peek(&chained) == id
        }),
{
}

/// Law: a push leaves every older frame in place — the extended container's
/// tail is the old container itself, unchanged.
pub proof fn lemma_push_preserves_tail<V, T, C>(c: ContextBuilder<T, C>, v: V)
    ensures
        c.pushed(v).next == c,
        c.pushed(v).item == v,
{
}

} // verus!
