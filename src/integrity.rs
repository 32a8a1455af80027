//! Completion gate: a size check, not a content hash.
use crate::error::DownloadError;
use vstd::prelude::*;

verus! {

/// The decimal digit for `d < 10`.
pub open spec fn digit_char(d: nat) -> char {
    if d == 0 {
        '0'
    } else if d == 1 {
        '1'
    } else if d == 2 {
        '2'
    } else if d == 3 {
        '3'
    } else if d == 4 {
        '4'
    } else if d == 5 {
        '5'
    } else if d == 6 {
        '6'
    } else if d == 7 {
        '7'
    } else if d == 8 {
        '8'
    } else {
        '9'
    }
}

/// Decimal text of `n`, without leading zeros.
pub open spec fn decimal(n: nat) -> Seq<char>
    decreases n,
{
    if n < 10 {
        seq![digit_char(n)]
    } else {
        decimal(n / 10).push(digit_char(n % 10))
    }
}

fn digit_text(d: u64) -> (r: &'static str)
    requires
        d < 10,
    ensures
        r@ == seq![digit_char(d as nat)],
{
    proof {
        reveal_strlit("0");
        reveal_strlit("1");
        reveal_strlit("2");
        reveal_strlit("3");
        reveal_strlit("4");
        reveal_strlit("5");
        reveal_strlit("6");
        reveal_strlit("7");
        reveal_strlit("8");
        reveal_strlit("9");
    }
    let r = if d == 0 {
        "0"
    } else if d == 1 {
        "1"
    } else if d == 2 {
        "2"
    } else if d == 3 {
        "3"
    } else if d == 4 {
        "4"
    } else if d == 5 {
        "5"
    } else if d == 6 {
        "6"
    } else if d == 7 {
        "7"
    } else if d == 8 {
        "8"
    } else {
        "9"
    };
    assert(r@ =~= seq![digit_char(d as nat)]);
    r
}

/// Decimal text of a number.
pub fn to_decimal(n: u64) -> (r: String)
    ensures
        r@ == decimal(n as nat),
{
    let mut m = n;
    let mut r = String::new();
    while m >= 10
        invariant
            decimal(n as nat) == decimal(m as nat) + r@,
        decreases m,
    {
        let d = digit_text(m % 10);
        let ghost old_r = r@;
        r = String::from_str(d).concat(r.as_str());
        assert(decimal(m as nat) == decimal((m / 10) as nat).push(digit_char((m % 10) as nat)));
        assert(decimal((m / 10) as nat).push(digit_char((m % 10) as nat)) + old_r =~= decimal(
            (m / 10) as nat,
        ) + r@);
        m = m / 10;
    }
    let d = digit_text(m);
    let ghost old_r = r@;
    r = String::from_str(d).concat(r.as_str());
    assert(decimal(m as nat) + old_r =~= r@);
    r
}

/// The text of the integrity error: both the byte and the chunk tallies.
pub open spec fn integrity_message(
    downloaded_bytes: u64,
    total_size: u64,
    completed_chunks: u64,
    total_chunks: u64,
) -> Seq<char> {
    "Download FAILED: "@ + decimal(downloaded_bytes as nat) + " / "@ + decimal(total_size as nat)
        + " bytes ("@ + decimal(completed_chunks as nat) + " / "@ + decimal(total_chunks as nat)
        + " chunks). Retry."@
}

/// Verifies that a download is complete: it passes exactly when at least
/// `total_size` bytes were counted; otherwise it fails with an integrity error
/// that reports both the byte and the chunk tallies.
pub fn verify_download(
    downloaded_bytes: u64,
    total_size: u64,
    completed_chunks: u64,
    total_chunks: u64,
) -> (r: Result<(), DownloadError>)
    ensures
        r is Ok <==> downloaded_bytes >= total_size,
        r matches Err(e) ==> (e matches DownloadError::Integrity { message } && message@
            == integrity_message(downloaded_bytes, total_size, completed_chunks, total_chunks)),
{
    if downloaded_bytes < total_size {
        let message = String::from_str("Download FAILED: ")
            .concat(to_decimal(downloaded_bytes).as_str())
            .concat(" / ")
            .concat(to_decimal(total_size).as_str())
            .concat(" bytes (")
            .concat(to_decimal(completed_chunks).as_str())
            .concat(" / ")
            .concat(to_decimal(total_chunks).as_str())
            .concat(" chunks). Retry.");
        return Err(DownloadError::Integrity { message });
    }
    Ok(())
}

} // verus!
