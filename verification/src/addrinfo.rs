//! Looking up what the operating system knows of an address.

use crate::addr::{ip_text, SocketAddr};
use crate::addr_map::AddrMap;
use crate::io::Error;
use crate::text::{number_text, push_number};
use vstd::prelude::*;

verus! {

/// What the operating system knows of a socket address: the bytes of its own form of it.
#[derive(Debug)]
pub struct AddrInfo {
    pub sockaddr: Vec<u8>,
}

impl Clone for AddrInfo {
    /// The same bytes.
    fn clone(&self) -> (copy: Self)
        ensures
            copy.sockaddr@ == self.sockaddr@,
    {
        AddrInfo { sockaddr: vstd::slice::slice_to_vec(self.sockaddr.as_slice()) }
    }
}

/// The addresses that have been looked up.
pub struct AddrInfoCache {
    infos: AddrMap<AddrInfo>,
}

/// What a look-up begins with: an answer, or the texts to ask the operating system with.
#[derive(Debug)]
pub enum Lookup {
    Known(AddrInfo),
    Ask { ip: String, port: String },
}

/// The texts of an address and of its port.
pub fn socketaddr_to_raw(addr: SocketAddr) -> (raw: (String, String))
    ensures
        raw.0@ == ip_text(addr.spec_ip()),
        raw.1@ == number_text(addr.spec_port() as nat, 10),
{
    let ip = addr.ip().to_text();
    let mut port = String::new();
    push_number(&mut port, addr.port() as u32, 10);
    (ip, port)
}

impl AddrInfoCache {
    /// Whether the cache is in order.
    pub closed spec fn wf(&self) -> bool {
        self.infos.wf()
    }

    /// The bytes that are known of each address that has been looked up.
    pub closed spec fn view(&self) -> Map<SocketAddr, Seq<u8>> {
        self.infos@.map_values(|info: AddrInfo| info.sockaddr@)
    }

    /// A cache without addresses.
    pub fn new() -> (c: AddrInfoCache)
        ensures
            c.wf(),
            c@ == Map::<SocketAddr, Seq<u8>>::empty(),
    {
        AddrInfoCache { infos: AddrMap::new() }
    }

    /// Ends a look-up for which the operating system was asked. `answer` is what it knows of the
    /// address, or the code of its failure. An answer is kept, a failure is not.
    pub fn answered<E>(&mut self, addr: SocketAddr, answer: Result<AddrInfo, i32>) -> (r: Result<
        AddrInfo,
        Error<E>,
    >)
        requires
            old(self).wf(),
        ensures
            final(self).wf(),
            match answer {
                Ok(info) => {
                    &&& r is Ok
                    &&& r->Ok_0.sockaddr@ == info.sockaddr@
                    &&& final(self)@ == old(self)@.insert(addr, info.sockaddr@)
                },
                Err(code) => {
                    &&& r is Err
                    &&& r->Err_0 == Error::<E>::Lookup(code)
                    &&& final(self)@ == old(self)@
                },
            },
    {
        match answer {
            Ok(info) => {
                let kept = info.clone();
                self.infos.insert(addr, kept);
                Ok(info)
            },
            Err(code) => Err(Error::Lookup(code)),
        }
    }
}

/// What is known of an address, where it has been looked up.
pub fn getaddrinfo_from_cache(cache: &AddrInfoCache, addr: &SocketAddr) -> (info: Option<AddrInfo>)
    requires
        cache.wf(),
    ensures
        info is Some == cache@.contains_key(*addr),
        info is Some ==> info->0.sockaddr@ == cache@[*addr],
{
    match cache.infos.get(addr) {
        Some(info) => Some(info.clone()),
        None => None,
    }
}

/// Begins to look an address up: the operating system is asked only for one that is not known.
pub fn getaddrinfo_from_std(cache: &AddrInfoCache, addr: SocketAddr) -> (l: Lookup)
    requires
        cache.wf(),
    ensures
        match l {
            Lookup::Known(info) => {
                &&& cache@.contains_key(addr)
                &&& info.sockaddr@ == cache@[addr]
            },
            Lookup::Ask { ip, port } => {
                &&& !cache@.contains_key(addr)
                &&& ip@ == ip_text(addr.spec_ip())
                &&& port@ == number_text(addr.spec_port() as nat, 10)
            },
        },
{
    match getaddrinfo_from_cache(cache, &addr) {
        Some(info) => Lookup::Known(info),
        None => {
            let (ip, port) = socketaddr_to_raw(addr);
            Lookup::Ask { ip, port }
        },
    }
}

} // verus!
