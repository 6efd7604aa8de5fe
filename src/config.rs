//! The proxy's settings and the values derived from them.
use vstd::prelude::*;
use vstd::string::*;
use crate::text::{trim, trimmed};

verus! {

/// Settings of one proxy process.
#[derive(Clone)]
pub struct Config {
    /// Game server address, `host:port`.
    pub server: String,
    /// Port that serves the websocket and HTTP endpoints.
    pub port: u16,
    /// Host that the listener binds to.
    pub host: String,
    /// Public address advertised in ICE candidates.
    pub public_ip: Option<String>,
    /// Verbose logging.
    pub verbose: bool,
    /// Path of the game package archive.
    pub package_zip: Option<String>,
    /// Directory of static files that replaces the embedded assets.
    pub static_dir: Option<String>,
    /// Game directory name.
    pub game_dir: String,
    /// Extra console commands, separated by commas.
    pub console_commands: Option<String>,
}

/// The character of one decimal digit.
pub open spec fn digit_char(d: nat) -> char {
    seq!['0', '1', '2', '3', '4', '5', '6', '7', '8', '9'][d as int]
}

/// The decimal numeral of `n`, without leading zeros.
pub open spec fn decimal(n: nat) -> Seq<char>
    decreases n,
{
    if n < 10 {
        seq![digit_char(n)]
    } else {
        decimal(n / 10).push(digit_char(n % 10))
    }
}

fn digit_text(d: u16) -> (r: &'static str)
    requires
        d < 10,
    ensures
        r@ == seq![digit_char(d as nat)],
{
    proof {
        reveal_strlit("0");
        reveal_strlit("1");
        reveal_strlit("2");
        reveal_strlit("3");
        reveal_strlit("4");
        reveal_strlit("5");
        reveal_strlit("6");
        reveal_strlit("7");
        reveal_strlit("8");
        reveal_strlit("9");
    }
    let r = if d == 0 {
        "0"
    } else if d == 1 {
        "1"
    } else if d == 2 {
        "2"
    } else if d == 3 {
        "3"
    } else if d == 4 {
        "4"
    } else if d == 5 {
        "5"
    } else if d == 6 {
        "6"
    } else if d == 7 {
        "7"
    } else if d == 8 {
        "8"
    } else {
        "9"
    };
    assert(r@ =~= seq![digit_char(d as nat)]);
    r
}

/// The decimal numeral of a port number.
pub fn decimal_text(n: u16) -> (r: String)
    ensures
        r@ == decimal(n as nat),
    decreases n,
{
    if n < 10 {
        String::from_str(digit_text(n))
    } else {
        let mut s = decimal_text(n / 10);
        s.append(digit_text(n % 10));
        s
    }
}

/// The pieces of `s` between commas, as `str::split(',')` yields them.
pub open spec fn split_commas(s: Seq<char>) -> Seq<Seq<char>>
    decreases s.len(),
{
    if s.len() == 0 {
        seq![Seq::empty()]
    } else {
        let prev = split_commas(s.drop_last());
        if s.last() == ',' {
            prev.push(Seq::empty())
        } else {
            prev.update(prev.len() - 1, prev.last().push(s.last()))
        }
    }
}

/// The console commands that `text` lists: each comma-separated piece, trimmed.
pub open spec fn command_list(text: Seq<char>) -> Seq<Seq<char>> {
    split_commas(text).map_values(|p: Seq<char>| trimmed(p))
}

/// Each comma-separated piece of `s`, trimmed, in order.
pub fn split_trimmed(s: &str) -> (r: Vec<String>)
    ensures
        r@.len() == command_list(s@).len(),
        forall|k: int| 0 <= k < r@.len() ==> #[trigger] r@[k]@ == command_list(s@)[k],
{
    let n = s.unicode_len();
    let mut out: Vec<String> = Vec::new();
    let mut start: usize = 0;
    let mut i: usize = 0;
    let ghost mut done: Seq<Seq<char>> = Seq::empty();
    assert(s@.subrange(0, 0) =~= Seq::<char>::empty());
    proof {
        assert(split_commas(Seq::<char>::empty()) == seq![Seq::<char>::empty()]);
        assert(done.push(s@.subrange(0, 0)) =~= seq![Seq::<char>::empty()]);
    }
    while i < n
        invariant
            n == s@.len(),
            start <= i <= n,
            split_commas(s@.subrange(0, i as int)) == done.push(s@.subrange(start as int, i as int)),
            out@.len() == done.len(),
            forall|k: int| 0 <= k < out@.len() ==> #[trigger] out@[k]@ == trimmed(done[k]),
        decreases n - i,
    {
        let c = s.get_char(i);
        let ghost prefix = s@.subrange(0, i + 1);
        assert(prefix.drop_last() =~= s@.subrange(0, i as int));
        assert(prefix.last() == c);
        if c == ',' {
            let piece = s.substring_char(start, i);
            out.push(trim(piece));
            proof {
                done = done.push(s@.subrange(start as int, i as int));
                assert(s@.subrange(i + 1, i + 1) =~= Seq::<char>::empty());
            }
            start = i + 1;
        } else {
            assert(s@.subrange(start as int, i + 1) =~= s@.subrange(start as int, i as int).push(c));
            assert(done.push(s@.subrange(start as int, i as int)).update(done.len() as int, s@.subrange(start as int, i + 1))
                =~= done.push(s@.subrange(start as int, i + 1)));
        }
        i = i + 1;
    }
    let piece = s.substring_char(start, n);
    out.push(trim(piece));
    proof {
        assert(s@.subrange(0, n as int) =~= s@);
        done = done.push(s@.subrange(start as int, n as int));
    }
    assert(out@.len() == command_list(s@).len());
    out
}

impl Config {
    /// The address that the listener binds to: `host:port`.
    pub fn listen_addr(&self) -> (r: String)
        ensures
            r@ == self.host@ + seq![':'] + decimal(self.port as nat),
    {
        let mut s = self.host.clone();
        let colon = ":";
        proof {
            reveal_strlit(":");
        }
        s.append(colon);
        let digits = decimal_text(self.port);
        s.append(digits.as_str());
        assert(colon@ =~= seq![':']);
        s
    }

    /// The extra console commands, split at commas and trimmed; none when unset.
    pub fn get_console_commands(&self) -> (r: Vec<String>)
        ensures
            self.console_commands is None ==> r@.len() == 0,
            self.console_commands matches Some(t) ==> {
                &&& r@.len() == command_list(t@).len()
                &&& forall|k: int| 0 <= k < r@.len() ==> #[trigger] r@[k]@ == command_list(t@)[k]
            },
    {
        match &self.console_commands {
            Some(t) => split_trimmed(t.as_str()),
            None => Vec::new(),
        }
    }

    /// Whether the embedded assets are served, which they are unless a static
    /// directory replaces them.
    pub fn use_embedded_assets(&self) -> (r: bool)
        ensures
            r == (self.static_dir is None),
    {
        self.static_dir.is_none()
    }
}

} // verus!
