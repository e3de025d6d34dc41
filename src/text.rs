use vstd::prelude::*;

verus! {

/// The views of a sequence of strings.
pub open spec fn strs(v: Seq<String>) -> Seq<Seq<char>> {
    v.map_values(|s: String| s@)
}

/// All parts, one after another.
pub open spec fn concat(parts: Seq<Seq<char>>) -> Seq<char>
    decreases parts.len(),
{
    if parts.len() == 0 {
        Seq::empty()
    } else {
        concat(parts.drop_last()) + parts.last()
    }
}

/// The parts with `sep` between each two neighbours.
pub open spec fn join(parts: Seq<Seq<char>>, sep: Seq<char>) -> Seq<char>
    decreases parts.len(),
{
    if parts.len() == 0 {
        Seq::empty()
    } else if parts.len() == 1 {
        parts[0]
    } else {
        join(parts.drop_last(), sep) + sep + parts.last()
    }
}

/// Concatenates the strings of `parts`.
pub fn concat_all(parts: &Vec<String>) -> (r: String)
    ensures
        r@ == concat(strs(parts@)),
{
    let mut r = String::new();
    let mut i: usize = 0;
    while i < parts.len()
        invariant
            i <= parts@.len(),
            r@ == concat(strs(parts@).take(i as int)),
        decreases parts@.len() - i,
    {
        proof {
            assert(strs(parts@).take(i as int + 1).drop_last() =~= strs(parts@).take(i as int));
        }
        r.append(parts[i].as_str());
        i += 1;
    }
    proof {
        assert(strs(parts@).take(i as int) =~= strs(parts@));
    }
    r
}

/// Joins the strings of `parts` with `sep` between each two neighbours.
pub fn join_all(parts: &Vec<String>, sep: &str) -> (r: String)
    ensures
        r@ == join(strs(parts@), sep@),
{
    if parts.len() == 0 {
        return String::new();
    }
    let mut r = parts[0].clone();
    let mut i: usize = 1;
    proof {
        assert(strs(parts@).take(1) =~= seq![parts@[0]@]);
    }
    while i < parts.len()
        invariant
            1 <= i <= parts@.len(),
            r@ == join(strs(parts@).take(i as int), sep@),
        decreases parts@.len() - i,
    {
        proof {
            assert(strs(parts@).take(i as int + 1).drop_last() =~= strs(parts@).take(i as int));
        }
        r.append(sep);
        r.append(parts[i].as_str());
        i += 1;
    }
    proof {
        assert(strs(parts@).take(i as int) =~= strs(parts@));
    }
    r
}

} // verus!
