//! The client application's in-memory state: the server address the
//! front end currently shows.

use vstd::prelude::*;

verus! {

/// The client's mutable application data; its abstract value is the
/// server address it holds.
#[derive(Clone)]
pub struct AppData {
    server_addr: String,
}

impl View for AppData {
    type V = Seq<char>;

    closed spec fn view(&self) -> Seq<char> {
        self.server_addr@
    }
}

impl AppData {
    pub fn new(server_addr: String) -> (d: Self)
        ensures
            d@ == server_addr@,
    {
        AppData { server_addr }
    }

    pub fn server_addr(&self) -> (a: &str)
        ensures
            a@ == self@,
    {
        self.server_addr.as_str()
    }

    pub fn server_addr_mut(&mut self) -> (a: &mut String)
        ensures
            (*a)@ == old(self)@,
            final(self)@ == (*final(a))@,
    {
        &mut self.server_addr
    }

    pub fn set_server_addr(&mut self, value: String)
        ensures
            final(self)@ == value@,
    {
        self.server_addr = value;
    }
}

impl Default for AppData {
    /// Fresh application data: no server address yet.
    fn default() -> (d: Self)
        ensures
            d@ == Seq::<char>::empty(),
    {
        AppData { server_addr: String::new() }
    }
}

} // verus!
