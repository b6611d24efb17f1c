//! The client: its options, and what it decides before it sends or receives.

use crate::model::{DEFAULT_PASSPHRASE, DEFAULT_RELAY};
use crate::utils::{
    decimal, find_open_ports, parse_port, parsed_port, port_text, PortScan, PortScanView,
};
use std::collections::BTreeSet;
use vstd::prelude::*;
use vstd::string::*;

verus! {

/// Seconds for which a sender that also uses a relay announces itself on the
/// local network.
pub const BROADCAST_SECONDS: u64 = 30;

/// What the user asked for.
#[derive(Debug)]
pub struct Options {
    pub is_sender: bool,
    pub shared_secret: String,
    pub relay_address: String,
    pub relay_address6: String,
    pub relay_ports: Vec<String>,
    pub relay_password: String,
    pub zip_folder: bool,
    pub git_ignore: bool,
    pub disable_local: bool,
    pub only_local: bool,
    pub ip: String,
}

/// A file to transfer.
pub struct FileInfo {
    pub _name: String,
    pub _size: u64,
}

/// The state of a transfer.
pub struct Client {
    pub options: Options,
    pub step1_channel_secured: bool,
    pub files_has_finished: BTreeSet<usize>,
}

/// Why the client gave up.
#[derive(Debug, Clone, Copy, PartialEq, Eq, Structural)]
pub enum ClientError {
    /// The first relay port is not the text of a port.
    BadPort,
    /// Fewer ports are free than the local relay needs.
    NotEnoughPorts,
}

/// A client with the options `ops`, which has secured no channel and
/// finished no file.
pub fn new(ops: Options) -> (r: Result<Client, ClientError>)
    ensures
        r matches Ok(client) && client.options == ops && !client.step1_channel_secured
            && client.files_has_finished@ == Set::<usize>::empty(),
{
    Ok(Client { options: ops, step1_channel_secured: false, files_has_finished: BTreeSet::new() })
}

/// The files and the empty folders to transfer, and the number of folders.
/// Nothing is gathered: the answer is empty whatever is named.
pub fn get_files_info(fnames: &[String], _zip_folder: bool, ignore_git: bool) -> (r: Result<
    (Vec<FileInfo>, Vec<FileInfo>, usize),
    ClientError,
>)
    ensures
        r matches Ok((files, folders, count)) && files@.len() == 0 && folders@.len() == 0 && count
            == 0,
{
    let total_number_folders: usize = 0;
    let empty_folders: Vec<FileInfo> = Vec::new();
    let files_info: Vec<FileInfo> = Vec::new();
    Ok((files_info, empty_folders, total_number_folders))
}

/// How often the byte `b` stands in `s`.
pub open spec fn count_byte(s: Seq<u8>, b: u8) -> nat
    decreases s.len(),
{
    if s.len() == 0 {
        0
    } else {
        count_byte(s.drop_last(), b) + if s.last() == b {
            1nat
        } else {
            0nat
        }
    }
}

/// Whether the byte `b` stands in `bytes` at least `least` times.
fn has_bytes(bytes: &[u8], b: u8, least: usize) -> (r: bool)
    ensures
        r == (count_byte(bytes@, b) >= least),
{
    let mut seen: usize = 0;
    let mut i: usize = 0;
    while i < bytes.len()
        invariant
            i <= bytes@.len(),
            seen == count_byte(bytes@.subrange(0, i as int), b),
            seen <= i,
        decreases bytes@.len() - i,
    {
        proof {
            assert(bytes@.subrange(0, i + 1).drop_last() =~= bytes@.subrange(0, i as int));
        }
        if bytes[i] == b {
            seen += 1;
        }
        i += 1;
    }
    assert(bytes@.subrange(0, i as int) =~= bytes@);
    seen >= least
}

/// The words that tell the other side which relay and password to use:
/// the relay where it is not the default one and the transfer is not local
/// only, the password where it is not the default one.
pub open spec fn relay_flags(
    relay_address: Seq<char>,
    only_local: bool,
    relay_password: Seq<char>,
) -> Seq<char> {
    (if relay_address != DEFAULT_RELAY@ && !only_local {
        "--relay "@ + relay_address + " "@
    } else {
        Seq::<char>::empty()
    }) + (if relay_password != DEFAULT_PASSPHRASE@ {
        "--pass "@ + relay_password + " "@
    } else {
        Seq::<char>::empty()
    })
}

/// The relay addresses that a receiver uses: the sender's address, where
/// one is given, as the IPv6 relay if it holds two colons, as the IPv4 relay
/// if it holds a dot; no relay of a kind for which neither holds, nor for a
/// transfer that is local only; else the relays of the options.
pub open spec fn receiver_relays(
    relay_address: Seq<char>,
    relay_address6: Seq<char>,
    only_local: bool,
    ip: Seq<char>,
) -> (Seq<char>, Seq<char>) {
    let bytes = vstd::utf8::encode_utf8(ip);
    let cleared = only_local || ip.len() > 0;
    (
        if ip.len() > 0 && count_byte(bytes, 0x2e) >= 1 {
            ip
        } else if cleared {
            Seq::<char>::empty()
        } else {
            relay_address
        },
        if ip.len() > 0 && count_byte(bytes, 0x3a) >= 2 {
            ip
        } else if cleared {
            Seq::<char>::empty()
        } else {
            relay_address6
        },
    )
}

/// `parts` with `separator` between them.
pub open spec fn separated(parts: Seq<String>, separator: Seq<char>) -> Seq<char>
    decreases parts.len(),
{
    if parts.len() == 0 {
        Seq::<char>::empty()
    } else if parts.len() == 1 {
        parts[0]@
    } else {
        separated(parts.drop_last(), separator) + separator + parts.last()@
    }
}

/// The texts of `parts` from the index `from` on, with `separator` between
/// them.
pub fn join(parts: &Vec<String>, from: usize, separator: &str) -> (text: String)
    requires
        from <= parts@.len(),
    ensures
        text@ == separated(parts@.subrange(from as int, parts@.len() as int), separator@),
{
    let mut text: String = String::new();
    let mut i: usize = from;
    while i < parts.len()
        invariant
            from <= i <= parts@.len(),
            text@ == separated(parts@.subrange(from as int, i as int), separator@),
        decreases parts@.len() - i,
    {
        let ghost before = parts@.subrange(from as int, i as int);
        let ghost after = parts@.subrange(from as int, i + 1);
        proof {
            assert(after.drop_last() =~= before);
        }
        if i > from {
            text.append(separator);
        }
        text.append(parts[i].as_str());
        proof {
            if i == from {
            }
        }
        i += 1;
    }
    text
}

impl Client {
    /// Notes the files to send. Nothing is done with them.
    pub fn send_collect_files(&self, _files_info: &[FileInfo]) -> (r: Result<(), ClientError>)
        ensures
            r is Ok,
    {
        Ok(())
    }

    /// Prepares to send: returns the words that tell the other side which
    /// relay and password to use. Nothing is done with the files yet.
    pub fn send(
        &mut self,
        files_info: Vec<FileInfo>,
        _empty_folders_to_transfer: Vec<FileInfo>,
        _total_number_folders: usize,
    ) -> (r: Result<String, ClientError>)
        ensures
            *final(self) == *old(self),
            r matches Ok(flags) && flags@ == relay_flags(
                old(self).options.relay_address@,
                old(self).options.only_local,
                old(self).options.relay_password@,
            ),
    {
        let _ = self.send_collect_files(files_info.as_slice());
        let mut flags: String = String::new();
        if self.options.relay_address != DEFAULT_RELAY.to_owned() && !self.options.only_local {
            flags.append("--relay ");
            flags.append(self.options.relay_address.as_str());
            flags.append(" ");
        }
        if self.options.relay_password != DEFAULT_PASSPHRASE.to_owned() {
            flags.append("--pass ");
            flags.append(self.options.relay_password.as_str());
            flags.append(" ");
        }
        Ok(flags)
    }

    /// Settles which relays a receiver uses. Nothing else is changed.
    pub fn receive(&mut self) -> (r: Result<(), ClientError>)
        ensures
            r is Ok,
            (final(self).options.relay_address@, final(self).options.relay_address6@)
                == receiver_relays(
                old(self).options.relay_address@,
                old(self).options.relay_address6@,
                old(self).options.only_local,
                old(self).options.ip@,
            ),
            *final(self) == (Client {
                options: Options {
                    relay_address: final(self).options.relay_address,
                    relay_address6: final(self).options.relay_address6,
                    ..old(self).options
                },
                ..*old(self)
            }),
    {
        let given: bool = !self.options.ip.as_str().is_empty();
        if self.options.only_local || given {
            self.options.relay_address = String::new();
            self.options.relay_address6 = String::new();
        }
        if given {
            if has_bytes(self.options.ip.as_str().as_bytes(), 0x3a, 2) {
                self.options.relay_address6 = self.options.ip.clone();
            }
            if has_bytes(self.options.ip.as_str().as_bytes(), 0x2e, 1) {
                self.options.relay_address = self.options.ip.clone();
            }
        }
        Ok(())
    }

    /// The search for the ports of a local relay: as many free ports as the
    /// options name relay ports, from the first of these on.
    pub fn local_relay_scan(&self) -> (r: Result<PortScan, ClientError>)
        requires
            self.options.relay_ports@.len() > 0,
        ensures
            match parsed_port(vstd::utf8::encode_utf8(self.options.relay_ports@[0]@)) {
                Some(first) => r matches Ok(scan) && scan@ == (PortScanView {
                    start: first,
                    offset: 0,
                    want: self.options.relay_ports@.len() as usize,
                    found: Seq::<u16>::empty(),
                    over: false,
                }),
                None => r matches Err(e) && e == ClientError::BadPort,
            },
    {
        match parse_port(self.options.relay_ports[0].as_str()) {
            Some(first) => Ok(find_open_ports(first, self.options.relay_ports.len())),
            None => Err(ClientError::BadPort),
        }
    }

    /// Takes the free ports found as the relay ports, and returns the banner
    /// of the local relay: the ports after the first, with commas between
    /// them. With fewer free ports than relay ports nothing is changed. The
    /// options name at least one relay port.
    pub fn setup_local_relay(&mut self, open_ports: &Vec<u16>) -> (r: Result<String, ClientError>)
        requires
            old(self).options.relay_ports@.len() > 0,
        ensures
            open_ports@.len() < old(self).options.relay_ports@.len() ==> *final(self) == *old(self)
                && (r matches Err(e) && e == ClientError::NotEnoughPorts),
            open_ports@.len() >= old(self).options.relay_ports@.len() ==> {
                &&& (r matches Ok(banner) && banner@ == separated(
                    final(self).options.relay_ports@.subrange(1, open_ports@.len() as int),
                    ","@,
                ))
                &&& final(self).options.relay_ports@.len() == open_ports@.len()
                &&& forall|i: int|
                    0 <= i < open_ports@.len() ==> (
                    #[trigger] final(self).options.relay_ports@[i])@ == decimal(
                        open_ports@[i] as nat,
                    )
                &&& *final(self) == (Client {
                    options: Options {
                        relay_ports: final(self).options.relay_ports,
                        ..old(self).options
                    },
                    ..*old(self)
                })
            },
    {
        if open_ports.len() < self.options.relay_ports.len() {
            return Err(ClientError::NotEnoughPorts);
        }
        let mut ports: Vec<String> = Vec::new();
        let mut i: usize = 0;
        while i < open_ports.len()
            invariant
                i <= open_ports@.len(),
                ports@.len() == i,
                forall|j: int|
                    0 <= j < i ==> (#[trigger] ports@[j])@ == decimal(open_ports@[j] as nat),
            decreases open_ports@.len() - i,
        {
            ports.push(port_text(open_ports[i]));
            i += 1;
        }
        self.options.relay_ports = ports;
        Ok(join(&self.options.relay_ports, 1, ","))
    }
}

/// For how many seconds a sender announces itself on the local network:
/// for `BROADCAST_SECONDS` where it also uses a relay, without end where the
/// transfer is local only.
pub fn broadcast_on_local_network(only_local: bool) -> (limit: Option<u64>)
    ensures
        limit == if only_local {
            None::<u64>
        } else {
            Some(BROADCAST_SECONDS)
        },
{
    if only_local {
        None
    } else {
        Some(BROADCAST_SECONDS)
    }
}

} // verus!
