use vstd::prelude::*;

verus! {

/// What a list of `(name, value)` headers holds, as pairs of character sequences.
pub open spec fn pairs_view(v: Seq<(String, String)>) -> Seq<(Seq<char>, Seq<char>)> {
    v.map_values(|p: (String, String)| (p.0@, p.1@))
}

/// Appends one header to `headers`.
pub fn push_header(headers: &mut Vec<(String, String)>, name: &str, value: String)
    ensures
        pairs_view(final(headers)@) == pairs_view(old(headers)@).push((name@, value@)),
{
    let ghost before = headers@;
    headers.push((String::from_str(name), value));
    assert(pairs_view(headers@) =~= pairs_view(before).push((name@, value@)));
}

/// Appends every header of `extra` to `headers`, in order.
pub fn extend_headers(headers: &mut Vec<(String, String)>, extra: Vec<(String, String)>)
    ensures
        pairs_view(final(headers)@) == pairs_view(old(headers)@) + pairs_view(extra@),
{
    let ghost start = pairs_view(headers@);
    let mut i: usize = 0;
    while i < extra.len()
        invariant
            i <= extra@.len(),
            pairs_view(headers@) == start + pairs_view(extra@.subrange(0, i as int)),
        decreases extra@.len() - i,
    {
        let name = extra[i].0.clone();
        let value = extra[i].1.clone();
        let ghost mid = headers@;
        headers.push((name, value));
        assert(pairs_view(headers@) =~= pairs_view(mid).push((extra@[i as int].0@, extra@[i as int].1@)));
        assert(extra@.subrange(0, i + 1) =~= extra@.subrange(0, i as int).push(extra@[i as int]));
        assert(pairs_view(extra@.subrange(0, i + 1)) =~= pairs_view(extra@.subrange(0, i as int)).push(
            (extra@[i as int].0@, extra@[i as int].1@),
        ));
        i = i + 1;
    }
    assert(extra@.subrange(0, extra@.len() as int) =~= extra@);
}

} // verus!
