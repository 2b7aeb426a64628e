//! The two processes that stand for a remote address.

use crate::pid::Pid;
use vstd::prelude::*;

verus! {

/// The writer and the watcher of one remote address.
#[derive(Debug)]
pub struct Endpoint {
    writer: Pid,
    watcher: Pid,
}

impl Endpoint {
    pub closed spec fn writer(&self) -> Pid {
        self.writer
    }

    pub closed spec fn watcher(&self) -> Pid {
        self.watcher
    }

    pub fn new(writer: Pid, watcher: Pid) -> (e: Self)
        ensures
            e.writer() == writer,
            e.watcher() == watcher,
    {
        Endpoint { writer, watcher }
    }

    pub fn get_watcher(&self) -> (p: Pid)
        ensures
            p == self.watcher(),
    {
        self.watcher.clone()
    }

    pub fn get_writer(&self) -> (p: Pid)
        ensures
            p == self.writer(),
    {
        self.writer.clone()
    }

    /// The address of the endpoint: that of its watcher.
    pub fn get_address(&self) -> (a: String)
        ensures
            a@ == self.watcher()@.address,
    {
        self.watcher.address.clone()
    }
}

impl Clone for Endpoint {
    fn clone(&self) -> (e: Self)
        ensures
            e == *self,
    {
        Endpoint { writer: self.writer.clone(), watcher: self.watcher.clone() }
    }
}

} // verus!
