//! Names of exported settings files: the first export takes the plain name
//! and later ones are numbered, so that no export overwrites another.

use vstd::prelude::*;
use vstd::string::*;

verus! {

/// The decimal digit `d` as a character.
pub open spec fn digit_char(d: nat) -> char
    recommends
        d < 10,
{
    (d + 48) as char
}

/// The decimal notation of `n`, without leading zeros.
pub open spec fn decimal(n: nat) -> Seq<char>
    decreases n,
{
    if n < 10 {
        seq![digit_char(n)]
    } else {
        decimal(n / 10).push(digit_char(n % 10))
    }
}

/// The file name of the export numbered `suffix`.
pub open spec fn export_name(suffix: nat) -> Seq<char> {
    if suffix == 0 {
        "keyaura-settings.json"@
    } else {
        "keyaura-settings ("@ + decimal(suffix) + ").json"@
    }
}

fn digit_str(d: u64) -> (r: &'static str)
    requires
        d < 10,
    ensures
        r@ == seq![digit_char(d as nat)],
{
    proof {
        reveal_strlit("0");
        reveal_strlit("1");
        reveal_strlit("2");
        reveal_strlit("3");
        reveal_strlit("4");
        reveal_strlit("5");
        reveal_strlit("6");
        reveal_strlit("7");
        reveal_strlit("8");
        reveal_strlit("9");
    }
    let r = if d == 0 {
        "0"
    } else if d == 1 {
        "1"
    } else if d == 2 {
        "2"
    } else if d == 3 {
        "3"
    } else if d == 4 {
        "4"
    } else if d == 5 {
        "5"
    } else if d == 6 {
        "6"
    } else if d == 7 {
        "7"
    } else if d == 8 {
        "8"
    } else {
        "9"
    };
    assert(r@ =~= seq![digit_char(d as nat)]);
    r
}

/// Appends the decimal notation of `n`.
fn push_decimal(s: &mut String, n: u64)
    ensures
        final(s)@ == old(s)@ + decimal(n as nat),
    decreases n,
{
    if n >= 10 {
        push_decimal(s, n / 10);
    }
    s.append(digit_str(n % 10));
    proof {
        assert(old(s)@ + decimal(n as nat) =~= s@);
    }
}

/// The file name for the export numbered `suffix`: `keyaura-settings.json`
/// for the first, `keyaura-settings (n).json` for the n-th after it.
pub fn export_file_name(suffix: u64) -> (name: String)
    ensures
        name@ == export_name(suffix as nat),
{
    if suffix == 0 {
        String::from_str("keyaura-settings.json")
    } else {
        let mut name = String::from_str("keyaura-settings (");
        push_decimal(&mut name, suffix);
        name.append(").json");
        name
    }
}

proof fn lemma_decimal_len(n: nat)
    ensures
        decimal(n).len() >= 1,
        n >= 10 ==> decimal(n).len() >= 2,
    decreases n,
{
    if n >= 10 {
        lemma_decimal_len(n / 10);
    }
}

proof fn lemma_decimal_injective(a: nat, b: nat)
    requires
        decimal(a) == decimal(b),
    ensures
        a == b,
    decreases a,
{
    lemma_decimal_len(a);
    lemma_decimal_len(b);
    if a < 10 && b < 10 {
        assert(decimal(a) == seq![digit_char(a)]);
        assert(decimal(b) == seq![digit_char(b)]);
        assert(seq![digit_char(a)][0] == digit_char(a));
        assert(seq![digit_char(b)][0] == digit_char(b));
        assert(digit_char(a) == digit_char(b));
    } else if a >= 10 && b >= 10 {
        let da = decimal(a);
        let db = decimal(b);
        assert(da.last() == db.last());
        assert(da.drop_last() =~= decimal(a / 10));
        assert(db.drop_last() =~= decimal(b / 10));
        lemma_decimal_injective(a / 10, b / 10);
    }
}

/// Different export numbers give different file names, so trying the
/// numbers in turn never reuses the name of an earlier export.
pub proof fn lemma_export_names_distinct(a: nat, b: nat)
    requires
        a != b,
    ensures
        export_name(a) != export_name(b),
{
    reveal_strlit("keyaura-settings.json");
    reveal_strlit("keyaura-settings (");
    reveal_strlit(").json");
    lemma_decimal_len(a);
    lemma_decimal_len(b);
    let p = "keyaura-settings ("@;
    let q = ").json"@;
    assert("keyaura-settings.json"@.len() == 21);
    assert(p.len() == 18);
    assert(q.len() == 6);
    if a == 0 {
        assert(export_name(b).len() == p.len() + decimal(b).len() + q.len());
    } else if b == 0 {
        assert(export_name(a).len() == p.len() + decimal(a).len() + q.len());
    } else if export_name(a) == export_name(b) {
        let na = export_name(a);
        let nb = export_name(b);
        assert(na.len() == p.len() + decimal(a).len() + q.len());
        assert(nb.len() == p.len() + decimal(b).len() + q.len());
        assert(decimal(a) =~= na.subrange(18, (18 + decimal(a).len()) as int));
        assert(decimal(b) =~= nb.subrange(18, (18 + decimal(b).len()) as int));
        lemma_decimal_injective(a, b);
    }
}

/// How an attempt to create an export file went.
#[derive(Clone, Copy, Debug, PartialEq, Eq, Structural)]
pub enum ExportOutcome {
    /// The file was created and written.
    Created,
    /// A file of that name exists already.
    AlreadyExists,
    /// Any other failure.
    Failed,
}

/// What the exporter does after an attempt.
#[derive(Clone, Copy, Debug, PartialEq, Eq, Structural)]
pub enum ExportNext {
    /// Report the created file.
    Done,
    /// Try the file numbered with the given number.
    TryNumber(u64),
    /// Report the failure.
    GiveUp,
}

/// The exporter's next move after trying the file numbered `suffix`: a name
/// that is taken moves on to the next number, any other failure stops, and
/// so does running out of numbers.
pub open spec fn next_export(suffix: u64, outcome: ExportOutcome) -> ExportNext {
    match outcome {
        ExportOutcome::Created => ExportNext::Done,
        ExportOutcome::Failed => ExportNext::GiveUp,
        ExportOutcome::AlreadyExists => if suffix < u64::MAX {
            ExportNext::TryNumber((suffix + 1) as u64)
        } else {
            ExportNext::GiveUp
        },
    }
}

/// Decides the exporter's next move.
pub fn export_next(suffix: u64, outcome: ExportOutcome) -> (next: ExportNext)
    ensures
        next == next_export(suffix, outcome),
        outcome == ExportOutcome::Created ==> next == ExportNext::Done,
        outcome == ExportOutcome::Failed ==> next == ExportNext::GiveUp,
        outcome == ExportOutcome::AlreadyExists && suffix < u64::MAX ==> next
            == ExportNext::TryNumber((suffix + 1) as u64),
        outcome == ExportOutcome::AlreadyExists && suffix == u64::MAX ==> next == ExportNext::GiveUp,
{
    match outcome {
        ExportOutcome::Created => ExportNext::Done,
        ExportOutcome::Failed => ExportNext::GiveUp,
        ExportOutcome::AlreadyExists => if suffix < u64::MAX {
            ExportNext::TryNumber(suffix + 1)
        } else {
            ExportNext::GiveUp
        },
    }
}

/// The exporter only ever moves on to a larger number, so every name it
/// tries differs from every name it tried before.
pub proof fn lemma_exporter_never_retries_a_name(suffix: u64, outcome: ExportOutcome, earlier: u64)
    requires
        earlier <= suffix,
        next_export(suffix, outcome) is TryNumber,
    ensures
        next_export(suffix, outcome)->0 > suffix,
        export_name(next_export(suffix, outcome)->0 as nat) != export_name(earlier as nat),
{
    lemma_export_names_distinct(next_export(suffix, outcome)->0 as nat, earlier as nat);
}

/// After a taken name the exporter tries exactly the next number, so
/// starting from the plain name the numbers are tried one after another;
/// success ends the search and any other failure stops it.
pub proof fn lemma_exporter_tries_numbers_in_turn(suffix: u64)
    ensures
        suffix < u64::MAX ==> next_export(suffix, ExportOutcome::AlreadyExists)
            == ExportNext::TryNumber((suffix + 1) as u64),
        suffix == u64::MAX ==> next_export(suffix, ExportOutcome::AlreadyExists) == ExportNext::GiveUp,
        next_export(suffix, ExportOutcome::Created) == ExportNext::Done,
        next_export(suffix, ExportOutcome::Failed) == ExportNext::GiveUp,
{
}

/// The number that a string of decimal digits denotes.
pub open spec fn digits_value(s: Seq<char>) -> nat
    decreases s.len(),
{
    if s.len() == 0 {
        0
    } else {
        digits_value(s.drop_last()) * 10 + ((s.last() as int - '0' as int) as nat)
    }
}

/// The decimal notation of a number consists of the digits `0`-`9`, starts
/// with `0` only for zero itself, and denotes that number.
pub proof fn lemma_decimal_reads_back(n: nat)
    ensures
        forall|i: int| 0 <= i < decimal(n).len() ==> '0' <= #[trigger] decimal(n)[i] && decimal(n)[i]
            <= '9',
        decimal(n)[0] == '0' ==> n == 0,
        digits_value(decimal(n)) == n,
    decreases n,
{
    lemma_decimal_len(n);
    if n >= 10 {
        lemma_decimal_reads_back(n / 10);
        lemma_decimal_len(n / 10);
        let d = decimal(n);
        assert(d.drop_last() =~= decimal(n / 10));
        assert(d[0] == decimal(n / 10)[0]);
        assert(forall|i: int| 0 <= i < d.len() - 1 ==> d[i] == decimal(n / 10)[i]);
        assert(d.last() == digit_char(n % 10));
        assert((digit_char(n % 10) as int - '0' as int) == n % 10);
        assert(digits_value(d) == digits_value(d.drop_last()) * 10 + ((d.last() as int - '0' as int) as nat));
        assert(digits_value(d) == (n / 10) * 10 + n % 10);
        assert((n / 10) * 10 + n % 10 == n) by (nonlinear_arith);
    } else {
        let d = decimal(n);
        assert(d.drop_last() =~= Seq::<char>::empty());
        assert(digits_value(d.drop_last()) == 0);
        assert(d.last() == digit_char(n));
        assert((digit_char(n) as int - '0' as int) == n);
        assert(digits_value(d) == digits_value(d.drop_last()) * 10 + ((d.last() as int - '0' as int) as nat));
    }
}

} // verus!
