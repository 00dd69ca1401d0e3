use vstd::prelude::*;

use crate::status::{status_named, Status};

verus! {

/// What can go wrong when querying an item.
#[derive(Debug, Clone, PartialEq, Eq)]
pub enum ItemError<E> {
    /// The remote call failed; the transport's own error.
    Transport(E),
    /// The remote answered with a status string that names no known status.
    InvalidStatus(String),
}

/// How a context menu is to be shown.
#[derive(Debug, Clone, Copy, PartialEq, Eq)]
pub enum Popup<H> {
    /// Show the locally built menu at the pointer.
    Local(H),
    /// Ask the item to show its own context menu at these coordinates.
    Remote(i32, i32),
}

/// The status that a reply of the remote status getter yields.
pub open spec fn status_of_reply<E>(reply: Result<String, E>) -> Result<Status, ItemError<E>> {
    match reply {
        Err(e) => Err(ItemError::Transport(e)),
        Ok(s) => match status_named(s@) {
            Some(st) => Ok(st),
            None => Err(ItemError::InvalidStatus(s)),
        },
    }
}

/// The cached menu after a refresh whose outcome is `reply`: the new menu
/// replaces the old one; a failure keeps the old one.
pub open spec fn menu_after<M, E>(menu: Option<M>, reply: Result<M, E>) -> Option<M> {
    match reply {
        Ok(m) => Some(m),
        Err(_) => menu,
    }
}

/// How a popup request at `(x, y)` is served, given the cached menu.
pub open spec fn popup_for<M>(menu: Option<M>, x: i32, y: i32) -> Popup<M> {
    match menu {
        Some(m) => Popup::Local(m),
        None => Popup::Remote(x, y),
    }
}

/// One status notifier item: a handle to the remote object, fixed for the
/// item's life, and the menu built for it, if one has been.
pub struct Item<P, M> {
    /// The handle to the remote object.
    pub sni: P,
    gtk_menu: Option<M>,
}

impl<P, M> Item<P, M> {
    /// The handle to the remote object.
    pub closed spec fn handle(&self) -> P {
        self.sni
    }

    /// The locally built menu that the item holds, if any.
    pub closed spec fn cached_menu(&self) -> Option<M> {
        self.gtk_menu
    }

    /// An item bound to the remote object behind `sni`, with no menu yet.
    pub fn from_proxy(sni: P) -> (r: Self)
        ensures
            r.handle() == sni,
            r.cached_menu() is None,
    {
        Item { sni, gtk_menu: None }
    }

    /// The item's status, from the reply of the remote status getter.
    /// A failed call is a transport error; a string that names no status is an
    /// invalid-status error carrying that string.
    pub fn status<E>(&self, reply: Result<String, E>) -> (r: Result<Status, ItemError<E>>)
        ensures
            r == status_of_reply(reply),
            reply is Err ==> r is Err && r->Err_0 is Transport,
    {
        match reply {
            Err(e) => Err(ItemError::Transport(e)),
            Ok(s) => match Status::parse(s.as_str()) {
                Ok(st) => Ok(st),
                Err(_) => Err(ItemError::InvalidStatus(s)),
            },
        }
    }

    /// Stores the menu built from the remote menu getter's reply, replacing
    /// any earlier one. A failed call leaves the cached menu as it was.
    pub fn set_menu<E>(&mut self, reply: Result<M, E>) -> (r: Result<(), ItemError<E>>)
        ensures
            final(self).handle() == old(self).handle(),
            final(self).cached_menu() == menu_after(old(self).cached_menu(), reply),
            match reply {
                Ok(_) => r is Ok,
                Err(e) => r == Err::<(), ItemError<E>>(ItemError::Transport(e)),
            },
    {
        match reply {
            Ok(m) => {
                self.gtk_menu = Some(m);
                Ok(())
            },
            Err(e) => Err(ItemError::Transport(e)),
        }
    }

    /// How to show the context menu for a click at `(x, y)`: the cached menu
    /// where there is one, else a remote context-menu call with the same
    /// coordinates.
    pub fn popup_menu(&self, x: i32, y: i32) -> (r: Popup<&M>)
        ensures
            match r {
                Popup::Local(m) => popup_for(self.cached_menu(), x, y) == Popup::Local(*m),
                Popup::Remote(a, b) => popup_for(self.cached_menu(), x, y) == Popup::<M>::Remote(a, b),
            },
    {
        match &self.gtk_menu {
            Some(m) => Popup::Local(m),
            None => Popup::Remote(x, y),
        }
    }

    /// The item's icon, from the outcome of loading it: any failure gives no
    /// icon rather than an error.
    pub fn icon<I, E>(&self, loaded: Result<I, E>) -> (r: Option<I>)
        ensures
            match loaded {
                Ok(i) => r == Some(i),
                Err(_) => r is None,
            },
    {
        match loaded {
            Ok(i) => Some(i),
            Err(_) => None,
        }
    }
}

/// A refresh of the menu that fails leaves a cached menu in place, so a popup
/// that follows still shows that menu locally and makes no remote call.
pub proof fn failed_refresh_keeps_local_popup<M, E>(menu: M, e: E, x: i32, y: i32)
    ensures
        menu_after(Some(menu), Err::<M, E>(e)) == Some(menu),
        popup_for(menu_after(Some(menu), Err::<M, E>(e)), x, y) == Popup::Local(menu),
{
}

/// Without a cached menu a popup is a remote call with the very coordinates
/// of the click.
pub proof fn no_menu_pops_up_remotely<M>(x: i32, y: i32)
    ensures
        popup_for(None::<M>, x, y) == Popup::<M>::Remote(x, y),
{
}

/// A status query whose remote call failed is a transport error, never an
/// invalid-status error.
pub proof fn failed_query_is_transport_error<E>(e: E)
    ensures
        status_of_reply(Err::<String, E>(e)) == Err::<Status, ItemError<E>>(ItemError::Transport(e)),
        !(status_of_reply(Err::<String, E>(e))->Err_0 is InvalidStatus),
{
}

} // verus!
