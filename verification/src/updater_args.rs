//! Reading the updater's command line back into the request that wrote it.
use vstd::prelude::*;
use crate::apply_update::{cli_args_spec, ApplyUpdateRequest};
use crate::text::{
    chars_of, decimal, digit_char, digit_value, digits_value, is_ascii_digit, owned, push_str,
    str_eq,
};

verus! {

/// The digits of a number as `str::parse::<u32>` reads them: after an
/// optional leading `+`.
pub open spec fn unsigned_digits(s: Seq<char>) -> Seq<char> {
    if s.len() > 0 && s[0] == '+' {
        s.subrange(1, s.len() as int)
    } else {
        s
    }
}

/// Whether every character of `s` is an ASCII digit.
pub open spec fn all_digits(s: Seq<char>) -> bool {
    forall|i: int| 0 <= i < s.len() ==> is_ascii_digit(#[trigger] s[i])
}

/// The number `s` spells as `str::parse::<u32>` reads it: an optional `+`,
/// then at least one ASCII digit, with a value that fits in a `u32`.
pub open spec fn u32_text(s: Seq<char>) -> Option<u32> {
    let d = unsigned_digits(s);
    if d.len() > 0 && all_digits(d) && digits_value(d) <= u32::MAX {
        Some(digits_value(d) as u32)
    } else {
        None
    }
}

/// A digit string is worth at least each of its prefixes.
proof fn lemma_digits_value_grows(s: Seq<char>, i: int)
    requires
        0 <= i <= s.len(),
        all_digits(s),
    ensures
        digits_value(s.subrange(0, i)) <= digits_value(s),
    decreases s.len() - i,
{
    if i < s.len() {
        lemma_digits_value_grows(s, i + 1);
        assert(s.subrange(0, i + 1).drop_last() =~= s.subrange(0, i));
    } else {
        assert(s.subrange(0, i) =~= s);
    }
}

/// The decimal text of a number is made of digits and spells the number.
pub proof fn lemma_decimal_spells(n: nat)
    ensures
        decimal(n).len() > 0,
        all_digits(decimal(n)),
        digits_value(decimal(n)) == n,
    decreases n,
{
    if n >= 10 {
        lemma_decimal_spells(n / 10);
        let d = decimal(n);
        assert(d.drop_last() =~= decimal(n / 10));
        assert(d.last() == digit_char(n % 10));
        assert(digit_value(digit_char(n % 10)) == n % 10);
        assert((n / 10) * 10 + n % 10 == n) by (nonlinear_arith);
        assert(digits_value(d) == digits_value(d.drop_last()) * 10 + digit_value(d.last()));
        assert(digits_value(d.drop_last()) == n / 10);
        assert forall|i: int| 0 <= i < d.len() implies is_ascii_digit(#[trigger] d[i]) by {
            if i < d.len() - 1 {
                assert(d[i] == decimal(n / 10)[i]);
            }
        }
    } else {
        let d = decimal(n);
        assert(d.drop_last() =~= Seq::<char>::empty());
        assert(digit_value(digit_char(n)) == n);
        assert(digits_value(d) == digits_value(d.drop_last()) * 10 + digit_value(d.last()));
    }
}

/// The number `s` spells as `str::parse::<u32>` reads it (see `u32_text`).
pub fn parse_u32_text(s: &str) -> (r: Option<u32>)
    ensures
        r == u32_text(s@),
{
    let cs = chars_of(s);
    let start: usize = if cs.len() > 0 && cs[0] == '+' {
        1
    } else {
        0
    };
    let ghost d = unsigned_digits(s@);
    proof {
        assert(d =~= cs@.subrange(start as int, cs@.len() as int));
    }
    if start >= cs.len() {
        return None;
    }
    let mut value: u64 = 0;
    let mut i = start;
    while i < cs.len()
        invariant
            start <= i <= cs@.len(),
            cs@ == s@,
            d == unsigned_digits(s@),
            d == cs@.subrange(start as int, cs@.len() as int),
            all_digits(d.subrange(0, i - start)),
            value == digits_value(d.subrange(0, i - start)),
            value <= u32::MAX,
        decreases cs.len() - i,
    {
        let c = cs[i];
        if !('0' <= c && c <= '9') {
            proof {
                assert(d[i - start] == c);
                assert(!is_ascii_digit(d[i - start]));
                assert(!all_digits(d));
            }
            return None;
        }
        proof {
            assert(d.subrange(0, i + 1 - start).drop_last() =~= d.subrange(0, i - start));
        }
        let next = value * 10 + ((c as u32) - ('0' as u32)) as u64;
        if next > 4294967295 {
            proof {
                let p = d.subrange(0, i + 1 - start);
                assert(p.last() == c);
                assert(digits_value(p) == value * 10 + digit_value(c));
                if all_digits(d) {
                    lemma_digits_value_grows(d, i + 1 - start);
                }
            }
            return None;
        }
        value = next;
        i = i + 1;
    }
    proof {
        assert(d.subrange(0, i - start) =~= d);
    }
    Some(value as u32)
}

/// The updater's flags as read so far.
pub struct UpdaterFlags {
    pub wait_pid: Option<u32>,
    pub target_exe: Option<Seq<char>>,
    pub new_binary: Option<Seq<char>>,
    pub staging_dir: Option<Seq<char>>,
    pub app_bundle: Option<Seq<char>>,
}

/// No flag read yet.
pub open spec fn no_flags() -> UpdaterFlags {
    UpdaterFlags {
        wait_pid: None,
        target_exe: None,
        new_binary: None,
        staging_dir: None,
        app_bundle: None,
    }
}

/// Reads the flags `args[i..]` in pairs of a flag and its value, on top of
/// `acc` (a later flag overrides an earlier one): an error for a flag without
/// a value, an unreadable process id, or an unknown flag.
pub open spec fn flags_from(args: Seq<Seq<char>>, i: int, acc: UpdaterFlags) -> Result<UpdaterFlags, Seq<char>>
    decreases args.len() - i,
{
    if i < 0 || i >= args.len() {
        Ok(acc)
    } else if i + 1 >= args.len() {
        Err("missing value for "@ + args[i])
    } else {
        let flag = args[i];
        let value = args[i + 1];
        if flag == "--wait-pid"@ {
            match u32_text(value) {
                Some(pid) => flags_from(args, i + 2, UpdaterFlags { wait_pid: Some(pid), ..acc }),
                None => Err("invalid --wait-pid value '"@ + value + "'"@),
            }
        } else if flag == "--target-exe"@ {
            flags_from(args, i + 2, UpdaterFlags { target_exe: Some(value), ..acc })
        } else if flag == "--new-binary"@ {
            flags_from(args, i + 2, UpdaterFlags { new_binary: Some(value), ..acc })
        } else if flag == "--staging-dir"@ {
            flags_from(args, i + 2, UpdaterFlags { staging_dir: Some(value), ..acc })
        } else if flag == "--app-bundle"@ {
            flags_from(args, i + 2, UpdaterFlags { app_bundle: Some(value), ..acc })
        } else {
            Err("unexpected argument '"@ + flag + "'"@)
        }
    }
}

/// A request by value: process id, target executable, new binary, staging
/// directory and, when a bundle is replaced, the new bundle.
pub type RequestView = (u32, Seq<char>, Seq<char>, Seq<char>, Option<Seq<char>>);

/// A request by value.
pub open spec fn request_view(r: ApplyUpdateRequest) -> RequestView {
    (
        r.wait_pid,
        r.target_exe@,
        r.new_binary@,
        r.staging_dir@,
        match r.app_bundle {
            Some(b) => Some(b@),
            None => None,
        },
    )
}

/// The request that the updater's arguments (after the mode name) describe,
/// or why they describe none: a flag error, or the first of the process id,
/// the target executable, the new binary and the staging directory that is
/// missing.
pub open spec fn updater_args_spec(args: Seq<Seq<char>>) -> Result<RequestView, Seq<char>> {
    match flags_from(args, 0, no_flags()) {
        Err(e) => Err(e),
        Ok(f) => match (f.wait_pid, f.target_exe, f.new_binary, f.staging_dir) {
            (None, _, _, _) => Err("missing --wait-pid"@),
            (Some(_), None, _, _) => Err("missing --target-exe"@),
            (Some(_), Some(_), None, _) => Err("missing --new-binary"@),
            (Some(_), Some(_), Some(_), None) => Err("missing --staging-dir"@),
            (Some(pid), Some(t), Some(n), Some(s)) => Ok((pid, t, n, s, f.app_bundle)),
        },
    }
}

/// The texts of a list of strings.
pub open spec fn arg_texts(args: Seq<String>) -> Seq<Seq<char>> {
    args.map_values(|s: String| s@)
}

/// The flags read so far, by value.
pub open spec fn flags_view(
    wait_pid: Option<u32>,
    target_exe: Option<String>,
    new_binary: Option<String>,
    staging_dir: Option<String>,
    app_bundle: Option<String>,
) -> UpdaterFlags {
    UpdaterFlags {
        wait_pid,
        target_exe: match target_exe {
            Some(s) => Some(s@),
            None => None,
        },
        new_binary: match new_binary {
            Some(s) => Some(s@),
            None => None,
        },
        staging_dir: match staging_dir {
            Some(s) => Some(s@),
            None => None,
        },
        app_bundle: match app_bundle {
            Some(s) => Some(s@),
            None => None,
        },
    }
}

/// "`prefix``middle``suffix`".
fn framed(prefix: &str, middle: &str, suffix: &str) -> (r: String)
    ensures
        r@ == prefix@ + middle@ + suffix@,
{
    let mut s = owned(prefix);
    push_str(&mut s, middle);
    push_str(&mut s, suffix);
    s
}

/// Reads the updater's arguments after the mode name (see
/// `updater_args_spec`).
pub fn parse_apply_update_args(args: &[String]) -> (r: Result<ApplyUpdateRequest, String>)
    ensures
        match r {
            Ok(req) => updater_args_spec(arg_texts(args@)) == Ok::<RequestView, Seq<char>>(
                request_view(req),
            ),
            Err(e) => updater_args_spec(arg_texts(args@)) == Err::<RequestView, Seq<char>>(e@),
        },
{
    let ghost texts = arg_texts(args@);
    let mut wait_pid: Option<u32> = None;
    let mut target_exe: Option<String> = None;
    let mut new_binary: Option<String> = None;
    let mut staging_dir: Option<String> = None;
    let mut app_bundle: Option<String> = None;
    let mut i: usize = 0;
    while i < args.len()
        invariant
            i <= args@.len(),
            texts == arg_texts(args@),
            flags_from(texts, 0, no_flags()) == flags_from(
                texts,
                i as int,
                flags_view(wait_pid, target_exe, new_binary, staging_dir, app_bundle),
            ),
        decreases args.len() - i,
    {
        let flag = args[i].as_str();
        proof {
            assert(texts[i as int] == flag@);
        }
        if i + 1 >= args.len() {
            let mut m = owned("missing value for ");
            push_str(&mut m, flag);
            return Err(m);
        }
        let value = &args[i + 1];
        proof {
            assert(texts[i + 1] == value@);
        }
        if str_eq(flag, "--wait-pid") {
            match parse_u32_text(value.as_str()) {
                Some(pid) => wait_pid = Some(pid),
                None => return Err(framed("invalid --wait-pid value '", value.as_str(), "'")),
            }
        } else if str_eq(flag, "--target-exe") {
            target_exe = Some(value.clone());
        } else if str_eq(flag, "--new-binary") {
            new_binary = Some(value.clone());
        } else if str_eq(flag, "--staging-dir") {
            staging_dir = Some(value.clone());
        } else if str_eq(flag, "--app-bundle") {
            app_bundle = Some(value.clone());
        } else {
            return Err(framed("unexpected argument '", flag, "'"));
        }
        i = i + 2;
    }
    let wait_pid = match wait_pid {
        Some(p) => p,
        None => return Err(owned("missing --wait-pid")),
    };
    let target_exe = match target_exe {
        Some(t) => t,
        None => return Err(owned("missing --target-exe")),
    };
    let new_binary = match new_binary {
        Some(n) => n,
        None => return Err(owned("missing --new-binary")),
    };
    let staging_dir = match staging_dir {
        Some(s) => s,
        None => return Err(owned("missing --staging-dir")),
    };
    Ok(ApplyUpdateRequest { wait_pid, target_exe, new_binary, staging_dir, app_bundle })
}

/// The updater reads back exactly the request whose arguments started it:
/// what `apply_update_cli_args` writes after the mode name, read by
/// `parse_apply_update_args`, is the request again.
pub proof fn lemma_updater_args_round_trip(req: ApplyUpdateRequest)
    ensures
        updater_args_spec(cli_args_spec(req).drop_first()) == Ok::<RequestView, Seq<char>>(
            request_view(req),
        ),
{
    let args = cli_args_spec(req).drop_first();
    let d = decimal(req.wait_pid as nat);
    lemma_decimal_spells(req.wait_pid as nat);
    assert(is_ascii_digit(d[0]));
    assert(unsigned_digits(d) == d);
    assert(u32_text(d) == Some(req.wait_pid));
    reveal_strlit("--wait-pid");
    reveal_strlit("--target-exe");
    reveal_strlit("--new-binary");
    reveal_strlit("--staging-dir");
    reveal_strlit("--app-bundle");
    let wait = "--wait-pid"@;
    let target = "--target-exe"@;
    let binary = "--new-binary"@;
    let staging = "--staging-dir"@;
    let bundle = "--app-bundle"@;
    assert(wait[2] != target[2] && wait[2] != binary[2] && wait[2] != staging[2] && wait[2]
        != bundle[2]);
    assert(target[2] != binary[2] && target[2] != staging[2] && target[2] != bundle[2]);
    assert(binary[2] != staging[2] && binary[2] != bundle[2]);
    assert(staging[2] != bundle[2]);
    assert(args[0] == wait && args[1] == d);
    assert(args[2] == target && args[3] == req.target_exe@);
    assert(args[4] == binary && args[5] == req.new_binary@);
    assert(args[6] == staging && args[7] == req.staging_dir@);
    let f0 = no_flags();
    let f1 = UpdaterFlags { wait_pid: Some(req.wait_pid), ..f0 };
    let f2 = UpdaterFlags { target_exe: Some(req.target_exe@), ..f1 };
    let f3 = UpdaterFlags { new_binary: Some(req.new_binary@), ..f2 };
    let f4 = UpdaterFlags { staging_dir: Some(req.staging_dir@), ..f3 };
    assert(flags_from(args, 0, f0) == flags_from(args, 2, f1));
    assert(flags_from(args, 2, f1) == flags_from(args, 4, f2));
    assert(flags_from(args, 4, f2) == flags_from(args, 6, f3));
    assert(flags_from(args, 6, f3) == flags_from(args, 8, f4));
    match req.app_bundle {
        Some(b) => {
            assert(args[8] == bundle && args[9] == b@);
            let f5 = UpdaterFlags { app_bundle: Some(b@), ..f4 };
            assert(flags_from(args, 8, f4) == flags_from(args, 10, f5));
            assert(flags_from(args, 10, f5) == Ok::<UpdaterFlags, Seq<char>>(f5));
        },
        None => {
            assert(flags_from(args, 8, f4) == Ok::<UpdaterFlags, Seq<char>>(f4));
        },
    }
}

} // verus!
