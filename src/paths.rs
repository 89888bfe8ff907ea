use vstd::prelude::*;

verus! {

pub open spec fn digits() -> Seq<char> {
    seq!['0', '1', '2', '3', '4', '5', '6', '7', '8', '9']
}

/// The decimal notation of `n`, without leading zeros.
pub open spec fn decimal(n: nat) -> Seq<char>
    decreases n,
{
    if n < 10 {
        seq![digits()[n as int]]
    } else {
        decimal(n / 10).push(digits()[(n % 10) as int])
    }
}

pub open spec fn input_prefix() -> Seq<char> {
    "src/data/input/input_"@
}

pub open spec fn input_suffix() -> Seq<char> {
    ".json"@
}

/// Appends the decimal notation of `n`.
fn append_decimal(out: &mut String, n: usize)
    ensures
        final(out)@ == old(out)@ + decimal(n as nat),
    decreases n,
{
    if n >= 10 {
        append_decimal(out, n / 10);
    }
    let d = n % 10;
    let table = "0123456789";
    proof {
        reveal_strlit("0123456789");
        assert(table@ == digits());
    }
    let ghost before = out@;
    out.append(table.substring_char(d, d + 1));
    proof {
        assert(table@.subrange(d as int, d + 1) =~= seq![digits()[d as int]]);
        if n >= 10 {
            assert(before + seq![digits()[d as int]] =~= before.push(digits()[d as int]));
            assert(out@ =~= old(out)@ + decimal(n as nat));
        } else {
            assert(out@ =~= old(out)@ + decimal(n as nat));
        }
    }
}

/// The file that holds the inputs of step `index`: a fixed template around
/// the zero-based index in decimal.
pub fn step_input_path(index: usize) -> (r: String)
    ensures
        r@ == input_prefix() + decimal(index as nat) + input_suffix(),
{
    proof {
        reveal_strlit("src/data/input/input_");
        reveal_strlit(".json");
    }
    let mut path = String::from_str("src/data/input/input_");
    append_decimal(&mut path, index);
    path.append(".json");
    path
}

} // verus!
