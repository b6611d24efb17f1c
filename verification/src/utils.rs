//! Ports: their decimal text, and the search for free ones.

use vstd::prelude::*;
use vstd::string::*;

verus! {

/// How many ports beyond the first the search for free ports looks at.
pub const PORT_SEARCH_SPAN: u16 = 200;

/// The character of the decimal digit `d`.
pub open spec fn digit(d: nat) -> char
    recommends
        d < 10,
{
    if d == 0 {
        '0'
    } else if d == 1 {
        '1'
    } else if d == 2 {
        '2'
    } else if d == 3 {
        '3'
    } else if d == 4 {
        '4'
    } else if d == 5 {
        '5'
    } else if d == 6 {
        '6'
    } else if d == 7 {
        '7'
    } else if d == 8 {
        '8'
    } else {
        '9'
    }
}

/// The decimal text of `n`, without leading zeros.
pub open spec fn decimal(n: nat) -> Seq<char>
    decreases n,
{
    if n < 10 {
        seq![digit(n)]
    } else {
        decimal(n / 10).push(digit(n % 10))
    }
}

/// The text of one decimal digit.
fn digit_text(d: u16) -> (text: &'static str)
    requires
        d < 10,
    ensures
        text@ == seq![digit(d as nat)],
{
    proof {
        reveal_strlit("0");
        reveal_strlit("1");
        reveal_strlit("2");
        reveal_strlit("3");
        reveal_strlit("4");
        reveal_strlit("5");
        reveal_strlit("6");
        reveal_strlit("7");
        reveal_strlit("8");
        reveal_strlit("9");
    }
    let text: &'static str = if d == 0 {
        "0"
    } else if d == 1 {
        "1"
    } else if d == 2 {
        "2"
    } else if d == 3 {
        "3"
    } else if d == 4 {
        "4"
    } else if d == 5 {
        "5"
    } else if d == 6 {
        "6"
    } else if d == 7 {
        "7"
    } else if d == 8 {
        "8"
    } else {
        "9"
    };
    text
}

/// The decimal text of a port.
pub fn port_text(port: u16) -> (text: String)
    ensures
        text@ == decimal(port as nat),
{
    if port == 0 {
        return digit_text(0).to_owned();
    }
    let mut text: String = String::new();
    let mut divisor: u16 = 10000;
    let ghost mut shown: nat = 0;
    assert(port as nat / 100000 == 0);
    while divisor > 0
        invariant
            port > 0,
            divisor == 10000 || divisor == 1000 || divisor == 100 || divisor == 10 || divisor == 1
                || divisor == 0,
            divisor > 0 ==> shown == port as nat / (divisor as nat * 10),
            divisor == 0 ==> shown == port as nat,
            shown > 0 ==> text@ == decimal(shown),
            shown == 0 ==> text@ == Seq::<char>::empty(),
        decreases divisor,
    {
        let d: u16 = (port / divisor) % 10;
        let ghost before = shown;
        proof {
            shown = port as nat / divisor as nat;
            assert(shown == before * 10 + d && shown / 10 == before && shown % 10 == d as nat)
                by (nonlinear_arith)
                requires
                    before == port as nat / (divisor as nat * 10),
                    shown == port as nat / divisor as nat,
                    d as nat == (port as nat / divisor as nat) % 10,
                    divisor > 0,
            ;
        }
        if d > 0 || !text.as_str().is_empty() {
            text.append(digit_text(d));
        }
        divisor = divisor / 10;
    }
    text
}

/// Whether `b` is an ASCII decimal digit.
pub open spec fn is_digit(b: u8) -> bool {
    0x30 <= b <= 0x39
}

/// Whether `s` holds decimal digits only.
pub open spec fn all_digits(s: Seq<u8>) -> bool {
    forall|i: int| 0 <= i < s.len() ==> is_digit(#[trigger] s[i])
}

/// The number that the decimal digits `s` write.
pub open spec fn digits_value(s: Seq<u8>) -> nat
    decreases s.len(),
{
    if s.len() == 0 {
        0
    } else {
        digits_value(s.drop_last()) * 10 + (s.last() - 0x30) as nat
    }
}

/// The port that the bytes `text` write: decimal digits, at least one,
/// after a plus sign or none, of a value that a port can have.
pub open spec fn parsed_port(text: Seq<u8>) -> Option<u16> {
    let digits = if text.len() > 0 && text[0] == 0x2b {
        text.subrange(1, text.len() as int)
    } else {
        text
    };
    if digits.len() == 0 || !all_digits(digits) || digits_value(digits) > u16::MAX {
        None
    } else {
        Some(digits_value(digits) as u16)
    }
}

/// Digits written before others write no more than all of them do.
proof fn lemma_prefix_value(s: Seq<u8>, n: int)
    requires
        all_digits(s),
        0 <= n <= s.len(),
    ensures
        digits_value(s.subrange(0, n)) <= digits_value(s),
    decreases s.len(),
{
    if n == s.len() {
        assert(s.subrange(0, n) =~= s);
    } else {
        lemma_prefix_value(s.drop_last(), n);
        assert(s.drop_last().subrange(0, n) =~= s.subrange(0, n));
    }
}

/// Reads `text` as a port.
pub fn parse_port(text: &str) -> (port: Option<u16>)
    ensures
        port == parsed_port(text.spec_bytes()),
{
    let bytes = text.as_bytes();
    let first: usize = if bytes.len() > 0 && bytes[0] == 0x2b {
        1
    } else {
        0
    };
    let ghost digits = bytes@.subrange(first as int, bytes@.len() as int);
    if first == bytes.len() {
        return None;
    }
    let mut value: u32 = 0;
    let mut i: usize = first;
    while i < bytes.len()
        invariant
            first <= i <= bytes@.len(),
            bytes@ == text.spec_bytes(),
            first == if bytes@.len() > 0 && bytes@[0] == 0x2b {
                1usize
            } else {
                0usize
            },
            first < bytes@.len(),
            digits == bytes@.subrange(first as int, bytes@.len() as int),
            all_digits(digits.subrange(0, i - first)),
            value == digits_value(digits.subrange(0, i - first)),
            value <= u16::MAX,
        decreases bytes@.len() - i,
    {
        let b: u8 = bytes[i];
        if b < 0x30 || b > 0x39 {
            assert(!is_digit(digits[i - first]));
            return None;
        }
        let ghost shorter = digits.subrange(0, i - first);
        let ghost longer = digits.subrange(0, i - first + 1);
        proof {
            assert(longer.drop_last() =~= shorter);
        }
        let next: u32 = value * 10 + (b - 0x30) as u32;
        if next > 0xffff {
            proof {
                assert(bytes@.subrange(0, bytes@.len() as int) =~= bytes@);
                if all_digits(digits) {
                    lemma_prefix_value(digits, i - first + 1);
                }
            }
            return None;
        }
        value = next;
        i += 1;
    }
    proof {
        assert(digits.subrange(0, i - first) =~= digits);
        assert(bytes@.subrange(0, bytes@.len() as int) =~= bytes@);
    }
    Some(value as u16)
}

/// A search for free ports: it looks at the ports from `start` on, one
/// after the other, and gathers those that nobody listens on, until it has
/// `want` of them or has looked at two hundred.
pub struct PortScan {
    pub start: u16,
    pub offset: u16,
    pub want: usize,
    pub found: Vec<u16>,
    pub over: bool,
}

/// What can be seen of a search.
pub struct PortScanView {
    pub start: u16,
    pub offset: u16,
    pub want: usize,
    pub found: Seq<u16>,
    pub over: bool,
}

impl View for PortScan {
    type V = PortScanView;

    open spec fn view(&self) -> PortScanView {
        PortScanView {
            start: self.start,
            offset: self.offset,
            want: self.want,
            found: self.found@,
            over: self.over,
        }
    }
}

/// Begins the search for `num_ports` free ports from `port_num_start` on.
/// The caller then asks for the port to look at, tries to connect to it,
/// and says whether somebody listens, until no port is left to look at.
pub fn find_open_ports(port_num_start: u16, num_ports: usize) -> (scan: PortScan)
    ensures
        scan@ == (PortScanView {
            start: port_num_start,
            offset: 0,
            want: num_ports,
            found: Seq::<u16>::empty(),
            over: false,
        }),
{
    PortScan { start: port_num_start, offset: 0, want: num_ports, found: Vec::new(), over: false }
}

/// The port that the search looks at next, if it goes on.
pub open spec fn probed(scan: PortScanView) -> Option<u16> {
    if scan.over || scan.offset >= PORT_SEARCH_SPAN || scan.start + scan.offset > u16::MAX {
        None
    } else {
        Some((scan.start + scan.offset) as u16)
    }
}

/// The search after it learned whether somebody listens on the port it
/// looked at: a free port is gathered; with enough ports the search is
/// over, else it moves on.
pub open spec fn recorded(scan: PortScanView, taken: bool) -> PortScanView {
    match probed(scan) {
        None => scan,
        Some(port) => {
            let found = if taken {
                scan.found
            } else {
                scan.found.push(port)
            };
            if found.len() >= scan.want {
                PortScanView { found, over: true, ..scan }
            } else {
                PortScanView { found, offset: (scan.offset + 1) as u16, ..scan }
            }
        },
    }
}

impl PortScan {
    /// The port to look at next, or `None` where the search is over.
    pub fn next_port(&self) -> (port: Option<u16>)
        ensures
            port == probed(self@),
    {
        if self.over || self.offset >= PORT_SEARCH_SPAN || self.offset > u16::MAX - self.start {
            None
        } else {
            Some(self.start + self.offset)
        }
    }

    /// Takes in whether somebody listens on the port that `next_port` gave.
    pub fn record(&mut self, taken: bool)
        ensures
            final(self)@ == recorded(old(self)@, taken),
    {
        match self.next_port() {
            None => {},
            Some(port) => {
                if !taken {
                    self.found.push(port);
                }
                if self.found.len() >= self.want {
                    self.over = true;
                } else {
                    self.offset = self.offset + 1;
                }
            },
        }
    }
}

/// Where the configuration is kept.
#[derive(Debug, PartialEq, Eq)]
pub enum ConfigHome {
    /// In the directory that the user named for it.
    Named(String),
    /// In the directory `croc` of the configuration directory named.
    InConfig(String),
    /// In the directory `.config/croc` of the home directory named.
    InHome(String),
    /// Nowhere: no directory is known.
    Nowhere,
}

/// Where the configuration is kept: in the directory named for it, else
/// under the configuration directory, else under the home directory.
pub fn get_config_dir(named: Option<String>, config: Option<String>, home: Option<String>) -> (r:
    ConfigHome)
    ensures
        r == match (named, config, home) {
            (Some(dir), _, _) => ConfigHome::Named(dir),
            (None, Some(dir), _) => ConfigHome::InConfig(dir),
            (None, None, Some(dir)) => ConfigHome::InHome(dir),
            (None, None, None) => ConfigHome::Nowhere,
        },
{
    match named {
        Some(dir) => ConfigHome::Named(dir),
        None => match config {
            Some(dir) => ConfigHome::InConfig(dir),
            None => match home {
                Some(dir) => ConfigHome::InHome(dir),
                None => ConfigHome::Nowhere,
            },
        },
    }
}

/// Whether the configuration directory is to be made: it is where it is
/// required and not there.
pub fn must_create(require: bool, exists: bool) -> (make: bool)
    ensures
        make == (require && !exists),
{
    require && !exists
}

} // verus!
