use vstd::prelude::*;
use vstd::string::StringExecFns;

verus! {

pub open spec fn digit_char(d: int) -> char {
    seq!['0', '1', '2', '3', '4', '5', '6', '7', '8', '9'][d]
}

/// Decimal notation of `n`, without leading zeros.
pub open spec fn decimal(n: nat) -> Seq<char>
    decreases n,
{
    if n < 10 {
        seq![digit_char(n as int)]
    } else {
        decimal(n / 10).push(digit_char((n % 10) as int))
    }
}

fn digit_str(d: u64) -> (r: &'static str)
    requires
        d < 10,
    ensures
        r@ == seq![digit_char(d as int)],
{
    proof {
        reveal_strlit("0");
        reveal_strlit("1");
        reveal_strlit("2");
        reveal_strlit("3");
        reveal_strlit("4");
        reveal_strlit("5");
        reveal_strlit("6");
        reveal_strlit("7");
        reveal_strlit("8");
        reveal_strlit("9");
    }
    if d == 0 {
        "0"
    } else if d == 1 {
        "1"
    } else if d == 2 {
        "2"
    } else if d == 3 {
        "3"
    } else if d == 4 {
        "4"
    } else if d == 5 {
        "5"
    } else if d == 6 {
        "6"
    } else if d == 7 {
        "7"
    } else if d == 8 {
        "8"
    } else {
        "9"
    }
}

/// Appends the decimal notation of `n` to `out`.
pub fn push_decimal(out: &mut String, n: u64)
    ensures
        final(out)@ == old(out)@ + decimal(n as nat),
    decreases n,
{
    if n >= 10 {
        push_decimal(out, n / 10);
    }
    out.append(digit_str(n % 10));
}

/// Fields separated by commas.
pub open spec fn joined(fields: Seq<Seq<char>>) -> Seq<char>
    decreases fields.len(),
{
    if fields.len() == 0 {
        Seq::empty()
    } else if fields.len() == 1 {
        fields[0]
    } else {
        joined(fields.drop_last()) + seq![','] + fields.last()
    }
}

/// `{f1,f2,...,fn}`.
pub open spec fn braced(fields: Seq<Seq<char>>) -> Seq<char> {
    seq!['{'] + joined(fields) + seq!['}']
}

/// An array field of the bulk-load format: braced, or `NULL` when empty.
pub open spec fn array_field(fields: Seq<Seq<char>>) -> Seq<char> {
    if fields.len() == 0 {
        seq!['N', 'U', 'L', 'L']
    } else {
        braced(fields)
    }
}

/// One bulk-load record: key, a tab, the array field, a newline.
pub open spec fn staged_record(key: Seq<char>, fields: Seq<Seq<char>>) -> Seq<char> {
    key + seq!['\t'] + array_field(fields) + seq!['\n']
}

pub open spec fn string_views(v: Seq<String>) -> Seq<Seq<char>> {
    v.map_values(|s: String| s@)
}

/// Decimal notations of the bytes of a code.
pub open spec fn code_fields(code: Seq<u8>) -> Seq<Seq<char>> {
    code.map_values(|b: u8| decimal(b as nat))
}

/// Appends `{f1,...,fn}` to `out`.
pub fn push_braced(out: &mut String, fields: &Vec<String>)
    ensures
        final(out)@ == old(out)@ + braced(string_views(fields@)),
{
    proof {
        reveal_strlit("{");
        reveal_strlit("}");
        reveal_strlit(",");
    }
    let ghost start = out@;
    out.append("{");
    let mut i: usize = 0;
    while i < fields.len()
        invariant
            i <= fields@.len(),
            out@ == start + seq!['{'] + joined(string_views(fields@.take(i as int))),
        decreases fields@.len() - i,
    {
        let ghost before = out@;
        proof {
            reveal_strlit(",");
        }
        if i > 0 {
            out.append(",");
        }
        let ghost mid = out@;
        let f = fields[i].as_str();
        out.append(f);
        assert(out@ == mid + fields@[i as int]@);
        proof {
            let v = string_views(fields@.take(i as int + 1));
            assert(v.drop_last() =~= string_views(fields@.take(i as int)));
            assert(v.last() == fields@[i as int]@);
            if i == 0 {
                assert(string_views(fields@.take(0)) =~= Seq::<Seq<char>>::empty());
                assert(v[0] == v.last());
                assert(out@ =~= start + seq!['{'] + joined(v));
            } else {
                assert(mid == before + seq![',']);
                assert(joined(v) == joined(v.drop_last()) + seq![','] + v.last());
                assert(out@ =~= start + seq!['{'] + joined(v));
            }
        }
        i = i + 1;
    }
    proof {
        assert(fields@.take(fields@.len() as int) =~= fields@);
    }
    out.append("}");
}

/// The array field of the bulk-load format for already formatted elements.
pub fn array_literal(fields: &Vec<String>) -> (r: String)
    ensures
        r@ == array_field(string_views(fields@)),
{
    let mut out = String::new();
    if fields.len() == 0 {
        proof {
            reveal_strlit("NULL");
        }
        out.append("NULL");
    } else {
        push_braced(&mut out, fields);
    }
    out
}

/// `{e1,...,en}` for already formatted elements, as the flat-file sink writes
/// a vector.
pub fn vector_literal(fields: &Vec<String>) -> (r: String)
    ensures
        r@ == braced(string_views(fields@)),
{
    let mut out = String::new();
    push_braced(&mut out, fields);
    out
}

/// The decimal notations of the bytes of a quantization code.
pub fn code_field_strings(code: &Vec<u8>) -> (r: Vec<String>)
    ensures
        string_views(r@) == code_fields(code@),
{
    let mut out: Vec<String> = Vec::new();
    let mut i: usize = 0;
    while i < code.len()
        invariant
            i <= code@.len(),
            string_views(out@) =~= code_fields(code@.take(i as int)),
        decreases code@.len() - i,
    {
        let mut s = String::new();
        push_decimal(&mut s, code[i] as u64);
        out.push(s);
        proof {
            assert(code_fields(code@.take(i as int + 1)) =~= code_fields(code@.take(i as int)).push(
                decimal(code@[i as int] as nat),
            ));
        }
        i = i + 1;
    }
    proof {
        assert(code@.take(code@.len() as int) =~= code@);
    }
    out
}

/// One bulk-load record for `key` and already formatted elements.
pub fn staged_line(key: &str, fields: &Vec<String>) -> (r: String)
    ensures
        r@ == staged_record(key@, string_views(fields@)),
{
    proof {
        reveal_strlit("\t");
        reveal_strlit("\n");
    }
    let mut out = String::new();
    out.append(key);
    out.append("\t");
    let lit = array_literal(fields);
    out.append(lit.as_str());
    out.append("\n");
    out
}

/// One bulk-load record for `key` and a quantization code, whose bytes are
/// written as decimal integers.
pub fn code_line(key: &str, code: &Vec<u8>) -> (r: String)
    ensures
        r@ == staged_record(key@, code_fields(code@)),
{
    let fields = code_field_strings(code);
    staged_line(key, &fields)
}

} // verus!
