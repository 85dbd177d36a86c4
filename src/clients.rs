//! Database clients, stored once and read many times.

use once_cell::sync::OnceCell;
use vstd::prelude::*;

verus! {

/// The bundle of database client handles that startup code builds and hands
/// to a registry. Connection setup is not this library's concern: a bundle
/// carries the identifiers of the clients it holds, and the registry never
/// looks inside it.
#[derive(Debug, Clone, PartialEq, Eq)]
pub struct AppClients {
    pub client_ids: Vec<u64>,
}

/// Declares `once_cell::sync::OnceCell`, the set-once cell that holds the
/// bundle; its contents are seen only through `cell_contents`.
#[verifier::external_type_specification]
#[verifier::external_body]
#[verifier::reject_recursive_types(T)]
pub struct ExOnceCell<T>(OnceCell<T>);

/// What a cell of bundles holds: `None` while it is empty, the stored bundle
/// once it has been set.
pub uninterp spec fn cell_contents(c: OnceCell<AppClients>) -> Option<AppClients>;

/// Relies on `once_cell::sync::OnceCell::new`: a new cell is empty.
#[verifier::external_body]
fn empty_cell() -> (c: OnceCell<AppClients>)
    ensures
        cell_contents(c) is None,
{
    OnceCell::new()
}

/// Relies on `once_cell::sync::OnceCell::set`: an empty cell takes the value
/// and returns `Ok(())`; a full cell keeps what it holds and hands the value
/// back in `Err`.
#[verifier::external_body]
fn cell_set(c: &mut OnceCell<AppClients>, value: AppClients) -> (r: Result<(), AppClients>)
    ensures
        r == (if cell_contents(*old(c)) is None {
            Ok::<(), AppClients>(())
        } else {
            Err::<(), AppClients>(value)
        }),
        cell_contents(*final(c)) == (if cell_contents(*old(c)) is None {
            Some(value)
        } else {
            cell_contents(*old(c))
        }),
{
    c.set(value)
}

/// Relies on `once_cell::sync::OnceCell::get`: `None` for an empty cell, else
/// a reference to the stored value.
#[verifier::external_body]
fn cell_get(c: &OnceCell<AppClients>) -> (r: Option<&AppClients>)
    ensures
        match r {
            Some(v) => cell_contents(*c) == Some(*v),
            None => cell_contents(*c) is None,
        },
{
    c.get()
}

/// The registry's state after `set(bundle)` on a registry in state `s`: an
/// empty registry takes the bundle, a full one keeps what it holds.
pub open spec fn state_after_set(s: Option<AppClients>, bundle: AppClients) -> Option<AppClients> {
    if s is None {
        Some(bundle)
    } else {
        s
    }
}

/// What `set(bundle)` returns on a registry in state `s`: success on an empty
/// registry, else the caller's own bundle handed back.
pub open spec fn set_outcome(s: Option<AppClients>, bundle: AppClients) -> Result<(), AppClients> {
    if s is None {
        Ok(())
    } else {
        Err(bundle)
    }
}

/// A process-wide cell for one bundle of database clients: empty at first,
/// set at most once, and read any number of times afterwards.
pub struct ClientRegistry {
    cell: OnceCell<AppClients>,
}

impl View for ClientRegistry {
    type V = Option<AppClients>;

    /// `None` while the registry is empty, else the bundle it holds.
    closed spec fn view(&self) -> Option<AppClients> {
        cell_contents(self.cell)
    }
}

impl ClientRegistry {
    /// An empty registry.
    pub fn new() -> (r: ClientRegistry)
        ensures
            r@ is None,
    {
        ClientRegistry { cell: empty_cell() }
    }

    /// Whether a bundle has been stored.
    pub fn is_initialized(&self) -> (r: bool)
        ensures
            r == self@ is Some,
    {
        cell_get(&self.cell).is_some()
    }
}

/// Stores `clients` if the registry is empty. A registry that already holds a
/// bundle keeps it, and the caller gets `clients` back in `Err`.
pub fn set(registry: &mut ClientRegistry, clients: AppClients) -> (r: Result<(), AppClients>)
    ensures
        r == set_outcome(old(registry)@, clients),
        final(registry)@ == state_after_set(old(registry)@, clients),
{
    cell_set(&mut registry.cell, clients)
}

/// The stored bundle. Reading an empty registry is a startup-ordering bug,
/// so a registry that has never been set is not an input here.
pub fn get(registry: &ClientRegistry) -> (r: &AppClients)
    requires
        registry@ is Some,
    ensures
        registry@ == Some(*r),
{
    cell_get(&registry.cell).expect("clients not initialized")
}

} // verus!
