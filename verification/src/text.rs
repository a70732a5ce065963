//! Decimal rendering of identifiers, artifact paths and endpoint URLs.

use vstd::prelude::*;
use vstd::string::StringExecFns;

verus! {

/// The character of one decimal digit.
pub open spec fn digit_char(d: int) -> char {
    if d == 0 {
        '0'
    } else if d == 1 {
        '1'
    } else if d == 2 {
        '2'
    } else if d == 3 {
        '3'
    } else if d == 4 {
        '4'
    } else if d == 5 {
        '5'
    } else if d == 6 {
        '6'
    } else if d == 7 {
        '7'
    } else if d == 8 {
        '8'
    } else {
        '9'
    }
}

/// The decimal digits of a nonnegative integer, most significant first.
pub open spec fn spec_dec_digits(n: int) -> Seq<char>
    decreases n,
{
    if n < 10 {
        seq![digit_char(n)]
    } else {
        spec_dec_digits(n / 10).push(digit_char(n % 10))
    }
}

/// The decimal rendering of a signed integer.
pub open spec fn spec_dec_i64(n: int) -> Seq<char> {
    if n < 0 {
        seq!['-'] + spec_dec_digits(-n)
    } else {
        spec_dec_digits(n)
    }
}

/// One decimal digit as a string slice.
fn digit_str(d: u64) -> (r: &'static str)
    requires
        d < 10,
    ensures
        r@ == seq![digit_char(d as int)],
{
    proof {
        reveal_strlit("0");
        reveal_strlit("1");
        reveal_strlit("2");
        reveal_strlit("3");
        reveal_strlit("4");
        reveal_strlit("5");
        reveal_strlit("6");
        reveal_strlit("7");
        reveal_strlit("8");
        reveal_strlit("9");
    }
    let r: &'static str = if d == 0 {
        "0"
    } else if d == 1 {
        "1"
    } else if d == 2 {
        "2"
    } else if d == 3 {
        "3"
    } else if d == 4 {
        "4"
    } else if d == 5 {
        "5"
    } else if d == 6 {
        "6"
    } else if d == 7 {
        "7"
    } else if d == 8 {
        "8"
    } else {
        "9"
    };
    proof {
        assert(r@ =~= seq![digit_char(d as int)]);
    }
    r
}

/// Render a `u64` in decimal.
pub fn u64_dec(n: u64) -> (s: String)
    ensures
        s@ == spec_dec_digits(n as int),
    decreases n,
{
    if n < 10 {
        digit_str(n).to_owned()
    } else {
        let prefix = u64_dec(n / 10);
        let s = prefix.concat(digit_str(n % 10));
        proof {
            assert(s@ =~= spec_dec_digits(n as int));
        }
        s
    }
}

/// Render an `i64` in decimal, with a leading minus sign when negative.
pub fn i64_dec(n: i64) -> (s: String)
    ensures
        s@ == spec_dec_i64(n as int),
{
    if n >= 0 {
        u64_dec(n as u64)
    } else {
        let magnitude: u64 = (-(n as i128)) as u64;
        let mut s = "-".to_owned();
        let digits = u64_dec(magnitude);
        s.append(digits.as_str());
        proof {
            reveal_strlit("-");
            assert(s@ =~= spec_dec_i64(n as int));
        }
        s
    }
}

/// The derived artifact path for a finished job.
pub open spec fn spec_default_zip_path(animation_id: int, result_id: int) -> Seq<char> {
    "animation_"@ + spec_dec_i64(animation_id) + "_"@ + spec_dec_i64(result_id) + ".zip"@
}

/// Derive the artifact path `animation_<animation_id>_<result_id>.zip`.
pub fn default_zip_path(animation_id: i64, result_id: i64) -> (s: String)
    ensures
        s@ == spec_default_zip_path(animation_id as int, result_id as int),
{
    let mut s = "animation_".to_owned();
    let aid = i64_dec(animation_id);
    s.append(aid.as_str());
    s.append("_");
    let rid = i64_dec(result_id);
    s.append(rid.as_str());
    s.append(".zip");
    proof {
        assert(s@ =~= spec_default_zip_path(animation_id as int, result_id as int));
    }
    s
}

/// The artifact destination: the caller's choice, or the derived path.
pub fn resolve_output_path(output_file: Option<&str>, animation_id: i64, result_id: i64) -> (s:
    String)
    ensures
        match output_file {
            Some(p) => s@ == p@,
            None => s@ == spec_default_zip_path(animation_id as int, result_id as int),
        },
{
    match output_file {
        Some(p) => p.to_owned(),
        None => default_zip_path(animation_id, result_id),
    }
}

/// The production or local base endpoint, by caller configuration.
pub fn base_url_for(local: bool) -> (s: &'static str)
    ensures
        local ==> s@ == "http://localhost:8000"@,
        !local ==> s@ == "https://gametorch.app"@,
{
    if local {
        "http://localhost:8000"
    } else {
        "https://gametorch.app"
    }
}

/// The job-status endpoint for one animation.
pub fn url_animation_results(base_url: &str, animation_id: &str) -> (s: String)
    ensures
        s@ == base_url@ + "/api/animation_results/"@ + animation_id@,
{
    let mut s = base_url.to_owned();
    s.append("/api/animation_results/");
    s.append(animation_id);
    s
}

/// The listing endpoint for the caller's animations.
pub fn url_animations(base_url: &str) -> (s: String)
    ensures
        s@ == base_url@ + "/api/animations"@,
{
    let mut s = base_url.to_owned();
    s.append("/api/animations");
    s
}

/// The submission endpoint.
pub fn url_animation(base_url: &str) -> (s: String)
    ensures
        s@ == base_url@ + "/api/animation"@,
{
    let mut s = base_url.to_owned();
    s.append("/api/animation");
    s
}

/// The artifact endpoint for one result.
pub fn url_animation_result_zip(base_url: &str, result_id: &str) -> (s: String)
    ensures
        s@ == base_url@ + "/api/animation_result_zip/"@ + result_id@,
{
    let mut s = base_url.to_owned();
    s.append("/api/animation_result_zip/");
    s.append(result_id);
    s
}

/// The regeneration endpoint for one animation.
pub fn url_regenerate(base_url: &str, animation_id: &str) -> (s: String)
    ensures
        s@ == base_url@ + "/api/animation/regenerate/"@ + animation_id@,
{
    let mut s = base_url.to_owned();
    s.append("/api/animation/regenerate/");
    s.append(animation_id);
    s
}

} // verus!
