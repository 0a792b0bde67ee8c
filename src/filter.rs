//! Filters of the history and the log producer's arguments that carry them.
use vstd::prelude::*;
use crate::text::views;
use crate::time::{DATE_FORMAT, format_timestamp, formatted_of};

verus! {

/// Record format asked of the log producer: graph prefix, then full hash, short
/// hash, author, email, date, subject and parent hashes, `|`-separated.
pub const LOG_PRETTY: &'static str = "--pretty=format:%H|%h|%an|%ae|%ad|%s|%P";

/// Which commits to list; every filter is optional.
#[derive(Debug, Clone)]
pub struct FilterOptions {
    /// Pattern that the author must match.
    pub author: Option<String>,
    /// Path that the commits must touch.
    pub path: Option<String>,
    /// Earliest commit date, in seconds since the epoch.
    pub since: Option<i64>,
    /// Latest commit date, in seconds since the epoch.
    pub until: Option<i64>,
    /// Revision range expression.
    pub range: Option<String>,
    /// Most commits to list.
    pub max_commits: Option<usize>,
}

pub open spec fn digit(d: nat) -> char {
    if d == 0 {
        '0'
    } else if d == 1 {
        '1'
    } else if d == 2 {
        '2'
    } else if d == 3 {
        '3'
    } else if d == 4 {
        '4'
    } else if d == 5 {
        '5'
    } else if d == 6 {
        '6'
    } else if d == 7 {
        '7'
    } else if d == 8 {
        '8'
    } else {
        '9'
    }
}

/// Decimal digits of `n`, without leading zeros.
pub open spec fn decimal(n: nat) -> Seq<char>
    decreases n,
{
    if n < 10 {
        seq![digit(n)]
    } else {
        decimal(n / 10).push(digit(n % 10))
    }
}

/// An option flag and its value, or nothing.
pub open spec fn flag_arg(flag: Seq<char>, v: Option<String>) -> Seq<Seq<char>> {
    match v {
        Some(x) => seq![flag, x@],
        None => Seq::empty(),
    }
}

/// A date flag with the date written as `YYYY-MM-DD`; `None` where chrono
/// cannot write the date.
pub open spec fn date_arg(flag: Seq<char>, d: Option<i64>) -> Option<Seq<Seq<char>>> {
    match d {
        None => Some(Seq::empty()),
        Some(t) => match formatted_of(t, DATE_FORMAT@) {
            Some(x) => Some(seq![flag, x]),
            None => None,
        },
    }
}

/// Arguments of the log producer for filter `f`.
pub open spec fn log_args_of(f: FilterOptions) -> Option<Seq<Seq<char>>> {
    let base = seq![
        "log"@,
        "--graph"@,
        "--decorate=full"@,
        "--date-order"@,
        LOG_PRETTY@,
        "--date=iso"@,
    ];
    let range = match f.range {
        Some(x) => seq![x@],
        None => Seq::empty(),
    };
    let max = match f.max_commits {
        Some(n) => seq!["-n"@, decimal(n as nat)],
        None => Seq::empty(),
    };
    match (date_arg("--since"@, f.since), date_arg("--until"@, f.until)) {
        (Some(s), Some(u)) => Some(
            base + flag_arg("--author"@, f.author) + flag_arg("--"@, f.path) + s + u + range + max,
        ),
        _ => None,
    }
}

pub fn digit_char(d: usize) -> (r: char)
    requires
        d < 10,
    ensures
        r == digit(d as nat),
{
    if d == 0 {
        '0'
    } else if d == 1 {
        '1'
    } else if d == 2 {
        '2'
    } else if d == 3 {
        '3'
    } else if d == 4 {
        '4'
    } else if d == 5 {
        '5'
    } else if d == 6 {
        '6'
    } else if d == 7 {
        '7'
    } else if d == 8 {
        '8'
    } else {
        '9'
    }
}

/// Appends the decimal digits of `n` to `s`.
pub fn push_decimal(s: &mut String, n: usize)
    ensures
        final(s)@ == old(s)@ + decimal(n as nat),
    decreases n,
{
    if n >= 10 {
        push_decimal(s, n / 10);
    }
    s.push(digit_char(n % 10));
    assert(s@ =~= old(s)@ + decimal(n as nat));
}

fn push_arg(args: &mut Vec<String>, a: String)
    ensures
        views(final(args)@) == views(old(args)@).push(a@),
{
    args.push(a);
    assert(views(args@) =~= views(old(args)@).push(a@));
}

fn push_flag(args: &mut Vec<String>, flag: &str, v: &Option<String>)
    ensures
        views(final(args)@) == views(old(args)@) + flag_arg(flag@, *v),
{
    match v {
        Some(x) => {
            push_arg(args, flag.to_owned());
            push_arg(args, x.clone());
            assert(views(args@) =~= views(old(args)@) + flag_arg(flag@, *v));
        },
        None => {
            assert(views(args@) =~= views(old(args)@) + flag_arg(flag@, *v));
        },
    }
}

/// Pushes a date flag; `false`, with `args` as it may stand then, where the
/// date cannot be written.
fn push_date(args: &mut Vec<String>, flag: &str, d: Option<i64>) -> (ok: bool)
    ensures
        ok == date_arg(flag@, d) is Some,
        ok ==> views(final(args)@) == views(old(args)@) + date_arg(flag@, d)->Some_0,
{
    match d {
        None => {
            assert(views(args@) =~= views(old(args)@) + Seq::<Seq<char>>::empty());
            true
        },
        Some(t) => match format_timestamp(t, DATE_FORMAT) {
            Some(x) => {
                push_arg(args, flag.to_owned());
                push_arg(args, x);
                assert(views(args@) =~= views(old(args)@) + date_arg(flag@, d)->Some_0);
                true
            },
            None => false,
        },
    }
}

impl FilterOptions {
    /// Arguments of the log producer that list the commits this filter
    /// selects; `None` where a date of the filter cannot be written.
    pub fn log_args(&self) -> (r: Option<Vec<String>>)
        ensures
            match log_args_of(*self) {
                Some(a) => r matches Some(v) && views(v@) == a,
                None => r is None,
            },
    {
        let mut args: Vec<String> = Vec::new();
        push_arg(&mut args, "log".to_owned());
        push_arg(&mut args, "--graph".to_owned());
        push_arg(&mut args, "--decorate=full".to_owned());
        push_arg(&mut args, "--date-order".to_owned());
        push_arg(&mut args, LOG_PRETTY.to_owned());
        push_arg(&mut args, "--date=iso".to_owned());
        push_flag(&mut args, "--author", &self.author);
        push_flag(&mut args, "--", &self.path);
        if !push_date(&mut args, "--since", self.since) {
            return None;
        }
        if !push_date(&mut args, "--until", self.until) {
            return None;
        }
        match &self.range {
            Some(x) => push_arg(&mut args, x.clone()),
            None => {},
        }
        match self.max_commits {
            Some(n) => {
                push_arg(&mut args, "-n".to_owned());
                let mut s = String::new();
                push_decimal(&mut s, n);
                assert(s@ =~= decimal(n as nat));
                push_arg(&mut args, s);
            },
            None => {},
        }
        assert(views(args@) =~= log_args_of(*self)->Some_0);
        Some(args)
    }
}

} // verus!
