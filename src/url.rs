//! Optional `&name=value` parameters appended to REST URLs.

use vstd::prelude::*;
use crate::encoding::{url_encode, url_encoded};
use crate::text::{decimal, decimal_string, views};

verus! {

/// `&name=value` for a present text value, verbatim.
pub open spec fn text_param(name: Seq<char>, v: Option<String>) -> Seq<char> {
    match v {
        Some(x) => "&"@ + name + "="@ + x@,
        None => Seq::empty(),
    }
}

/// `&name=value` for a present text value, percent-encoded.
pub open spec fn encoded_param(name: Seq<char>, v: Option<String>) -> Seq<char> {
    match v {
        Some(x) => "&"@ + name + "="@ + url_encoded(x@),
        None => Seq::empty(),
    }
}

/// `&name=n` for a present number, in decimal.
pub open spec fn number_param(name: Seq<char>, v: Option<u32>) -> Seq<char> {
    match v {
        Some(n) => "&"@ + name + "="@ + decimal(n as nat),
        None => Seq::empty(),
    }
}

/// The text of a boolean.
pub open spec fn bool_text(b: bool) -> Seq<char> {
    if b { "true"@ } else { "false"@ }
}

/// `&name=true` or `&name=false` for a present flag.
pub open spec fn flag_param(name: Seq<char>, v: Option<bool>) -> Seq<char> {
    match v {
        Some(b) => "&"@ + name + "="@ + bool_text(b),
        None => Seq::empty(),
    }
}

/// `&name=value` once per value, each percent-encoded, in order.
pub open spec fn repeated_param(name: Seq<char>, values: Seq<Seq<char>>) -> Seq<char>
    decreases values.len(),
{
    if values.len() == 0 {
        Seq::empty()
    } else {
        repeated_param(name, values.drop_last()) + "&"@ + name + "="@ + url_encoded(values.last())
    }
}

/// Appends `&name=value` for a present text value, verbatim.
pub fn push_text_param(url: &mut String, name: &str, v: &Option<String>)
    ensures
        final(url)@ == old(url)@ + text_param(name@, *v),
{
    match v {
        Some(x) => {
            url.append("&");
            url.append(name);
            url.append("=");
            url.append(x.as_str());
        },
        None => {
            assert(old(url)@ + Seq::<char>::empty() =~= old(url)@);
        },
    }
}

/// Appends `&name=value` for a present text value, percent-encoded.
pub fn push_encoded_param(url: &mut String, name: &str, v: &Option<String>)
    ensures
        final(url)@ == old(url)@ + encoded_param(name@, *v),
{
    match v {
        Some(x) => {
            url.append("&");
            url.append(name);
            url.append("=");
            url.append(url_encode(x.as_str()).as_str());
        },
        None => {
            assert(old(url)@ + Seq::<char>::empty() =~= old(url)@);
        },
    }
}

/// Appends `&name=n` for a present number.
pub fn push_number_param(url: &mut String, name: &str, v: Option<u32>)
    ensures
        final(url)@ == old(url)@ + number_param(name@, v),
{
    match v {
        Some(n) => {
            url.append("&");
            url.append(name);
            url.append("=");
            url.append(decimal_string(n as u64).as_str());
        },
        None => {
            assert(old(url)@ + Seq::<char>::empty() =~= old(url)@);
        },
    }
}

/// Appends `&name=true|false` for a present flag.
pub fn push_flag_param(url: &mut String, name: &str, v: Option<bool>)
    ensures
        final(url)@ == old(url)@ + flag_param(name@, v),
{
    match v {
        Some(b) => {
            url.append("&");
            url.append(name);
            url.append("=");
            url.append(if b { "true" } else { "false" });
        },
        None => {
            assert(old(url)@ + Seq::<char>::empty() =~= old(url)@);
        },
    }
}

/// Appends `&name=value` for each value, percent-encoded, in order.
pub fn push_repeated_param(url: &mut String, name: &str, values: &Vec<String>)
    ensures
        final(url)@ == old(url)@ + repeated_param(name@, views(values@)),
{
    let mut i: usize = 0;
    proof {
        assert(views(values@).subrange(0, 0) =~= Seq::<Seq<char>>::empty());
        assert(old(url)@ + Seq::<char>::empty() =~= old(url)@);
    }
    while i < values.len()
        invariant
            i <= values.len(),
            url@ == old(url)@ + repeated_param(name@, views(values@).subrange(0, i as int)),
        decreases values.len() - i,
    {
        let ghost before = url@;
        url.append("&");
        url.append(name);
        url.append("=");
        url.append(url_encode(values[i].as_str()).as_str());
        proof {
            let sub = views(values@).subrange(0, i + 1);
            assert(sub.drop_last() =~= views(values@).subrange(0, i as int));
            assert(sub.last() == values@[i as int]@);
            assert(url@ =~= old(url)@ + repeated_param(name@, sub));
        }
        i = i + 1;
    }
    proof {
        assert(views(values@).subrange(0, values.len() as int) =~= views(values@));
    }
}

} // verus!
