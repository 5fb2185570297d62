//! Lifting an ordered list of keys out of a decoded secret body.

use vstd::prelude::*;

use crate::error::SecretError;
use crate::json::{json_is_object, json_str_fields, str_field};

verus! {

/// The keys of a request, as character sequences.
pub open spec fn key_views(keys: Seq<&str>) -> Seq<Seq<char>> {
    keys.map_values(|k: &str| k@)
}

/// The strings of a result, as character sequences.
pub open spec fn string_views(vs: Seq<String>) -> Seq<Seq<char>> {
    vs.map_values(|s: String| s@)
}

/// Projecting `keys` out of the string fields `fields`: the value of each key,
/// in order, or the first key that has no string value.
pub open spec fn projected(fields: Map<Seq<char>, Seq<char>>, keys: Seq<Seq<char>>) -> Result<
    Seq<Seq<char>>,
    Seq<char>,
>
    decreases keys.len(),
{
    if keys.len() == 0 {
        Ok(Seq::empty())
    } else {
        match projected(fields, keys.drop_last()) {
            Ok(vs) => if fields.contains_key(keys.last()) {
                Ok(vs.push(fields[keys.last()]))
            } else {
                Err(keys.last())
            },
            Err(k) => Err(k),
        }
    }
}

/// A projection that has failed on a prefix of the keys fails on the whole
/// list, with the same key.
proof fn lemma_projected_err_extends(
    fields: Map<Seq<char>, Seq<char>>,
    keys: Seq<Seq<char>>,
    n: int,
    k: Seq<char>,
)
    requires
        0 <= n <= keys.len(),
        projected(fields, keys.take(n)) == Err::<Seq<Seq<char>>, Seq<char>>(k),
    ensures
        projected(fields, keys) == Err::<Seq<Seq<char>>, Seq<char>>(k),
    decreases keys.len() - n,
{
    if n == keys.len() {
        assert(keys.take(n) =~= keys);
    } else {
        assert(keys.take(n + 1).drop_last() =~= keys.take(n));
        lemma_projected_err_extends(fields, keys, n + 1, k);
    }
}

/// Whether every key of `keys` has a string value in `fields`.
pub open spec fn all_present(fields: Map<Seq<char>, Seq<char>>, keys: Seq<Seq<char>>) -> bool {
    forall|i: int| 0 <= i < keys.len() ==> fields.contains_key(#[trigger] keys[i])
}

/// A projection succeeds exactly when every requested key holds a string,
/// and then its result has one entry per key, the i-th being the value of the
/// i-th key.
pub proof fn lemma_projection_values(fields: Map<Seq<char>, Seq<char>>, keys: Seq<Seq<char>>)
    ensures
        projected(fields, keys) is Ok <==> all_present(fields, keys),
        all_present(fields, keys) ==> projected(fields, keys) == Ok::<Seq<Seq<char>>, Seq<char>>(
            keys.map_values(|k: Seq<char>| fields[k]),
        ),
    decreases keys.len(),
{
    if keys.len() > 0 {
        let front = keys.drop_last();
        lemma_projected_values_step(fields, keys);
        lemma_projection_values(fields, front);
        if all_present(fields, keys) {
            assert(all_present(fields, front));
            assert(keys.map_values(|k: Seq<char>| fields[k]) =~= front.map_values(
                |k: Seq<char>| fields[k],
            ).push(fields[keys.last()]));
        } else if all_present(fields, front) {
            assert(!fields.contains_key(keys.last()));
        }
    } else {
        assert(keys.map_values(|k: Seq<char>| fields[k]) =~= Seq::<Seq<char>>::empty());
    }
}

proof fn lemma_projected_values_step(fields: Map<Seq<char>, Seq<char>>, keys: Seq<Seq<char>>)
    requires
        keys.len() > 0,
    ensures
        all_present(fields, keys) <==> all_present(fields, keys.drop_last()) && fields.contains_key(
            keys.last(),
        ),
{
    let front = keys.drop_last();
    if all_present(fields, front) && fields.contains_key(keys.last()) {
        assert forall|i: int| 0 <= i < keys.len() implies fields.contains_key(#[trigger] keys[i]) by {
            if i < front.len() {
                assert(keys[i] == front[i]);
            }
        }
    }
    if all_present(fields, keys) {
        assert forall|i: int| 0 <= i < front.len() implies fields.contains_key(#[trigger] front[i]) by {
            assert(keys[i] == front[i]);
        }
        assert(fields.contains_key(keys[keys.len() - 1]));
    }
}

/// A failed projection names a requested key that holds no string, and every
/// key before that one holds a string.
proof fn lemma_projected_err(fields: Map<Seq<char>, Seq<char>>, keys: Seq<Seq<char>>)
    ensures
        projected(fields, keys) matches Err(k) ==> exists|j: int|
            0 <= j < keys.len() && #[trigger] keys[j] == k && !fields.contains_key(k) && all_present(
                fields,
                keys.take(j),
            ),
    decreases keys.len(),
{
    if keys.len() > 0 {
        let front = keys.drop_last();
        lemma_projected_err(fields, front);
        lemma_projection_values(fields, front);
        match projected(fields, keys) {
            Err(k) => {
                match projected(fields, front) {
                    Err(_) => {
                        let j = choose|j: int|
                            0 <= j < front.len() && #[trigger] front[j] == k && !fields.contains_key(k)
                                && all_present(fields, front.take(j));
                        assert(front.take(j) =~= keys.take(j));
                        assert(keys[j] == k);
                    },
                    Ok(_) => {
                        let j = keys.len() - 1;
                        assert(keys.take(j) =~= front);
                        assert(keys[j] == k);
                    },
                }
            },
            Ok(_) => {},
        }
    }
}

/// A projection that requests a key holding no string fails, naming a key
/// that holds no string; where that key is the first such, it is the one
/// named. The failure carries no partial list.
pub proof fn lemma_projection_missing(
    fields: Map<Seq<char>, Seq<char>>,
    keys: Seq<Seq<char>>,
    i: int,
)
    requires
        0 <= i < keys.len(),
        !fields.contains_key(keys[i]),
    ensures
        projected(fields, keys) is Err,
        projected(fields, keys) matches Err(k) ==> !fields.contains_key(k) && keys.contains(k),
        all_present(fields, keys.take(i)) ==> projected(fields, keys) == Err::<
            Seq<Seq<char>>,
            Seq<char>,
        >(keys[i]),
{
    lemma_projection_values(fields, keys);
    lemma_projected_err(fields, keys);
    if let Err(k) = projected(fields, keys) {
        let j = choose|j: int|
            0 <= j < keys.len() && #[trigger] keys[j] == k && !fields.contains_key(k) && all_present(
                fields,
                keys.take(j),
            );
        if all_present(fields, keys.take(i)) {
            if j < i {
                assert(keys.take(i)[j] == keys[j]);
            } else if j > i {
                assert(keys.take(j)[i] == keys[i]);
            }
        }
    }
}

/// An empty request succeeds with an empty result.
pub proof fn lemma_projection_empty(fields: Map<Seq<char>, Seq<char>>)
    ensures
        projected(fields, Seq::empty()) == Ok::<Seq<Seq<char>>, Seq<char>>(Seq::empty()),
{
}

/// Equal keys at two positions of a request give equal values at those
/// positions of a successful result.
pub proof fn lemma_projection_duplicates(
    fields: Map<Seq<char>, Seq<char>>,
    keys: Seq<Seq<char>>,
    i: int,
    j: int,
)
    requires
        0 <= i < keys.len(),
        0 <= j < keys.len(),
        keys[i] == keys[j],
    ensures
        projected(fields, keys) matches Ok(vs) ==> vs.len() == keys.len() && vs[i] == vs[j],
{
    lemma_projection_values(fields, keys);
}

/// Returns the string value of each key of `keys` in `body`, in order, or
/// `MissingKey` naming the first key that `body` lacks or that holds no
/// string. Nothing partial is returned on failure.
pub fn project_keys(body: &serde_json::Value, keys: &[&str]) -> (r: Result<Vec<String>, SecretError>)
    ensures
        match projected(json_str_fields(*body), key_views(keys@)) {
            Ok(vs) => r matches Ok(out) && string_views(out@) == vs,
            Err(k) => r matches Err(SecretError::MissingKey(m)) && m@ == k,
        },
        !json_is_object(*body) && keys@.len() > 0 ==> (r matches Err(SecretError::MissingKey(m))
            && m@ == keys@[0]@),
{
    let ghost fields = json_str_fields(*body);
    let ghost ks = key_views(keys@);
    let mut out: Vec<String> = Vec::new();
    let mut i: usize = 0;
    assert(ks.take(0).len() == 0);
    assert(string_views(out@) =~= Seq::<Seq<char>>::empty());
    while i < keys.len()
        invariant
            i <= keys@.len(),
            ks == key_views(keys@),
            fields == json_str_fields(*body),
            projected(fields, ks.take(i as int)) == Ok::<Seq<Seq<char>>, Seq<char>>(
                string_views(out@),
            ),
            i > 0 ==> json_is_object(*body),
        decreases keys@.len() - i,
    {
        let key = keys[i];
        assert(ks.take(i + 1).drop_last() =~= ks.take(i as int));
        assert(ks.take(i + 1).last() == key@);
        let ghost before = string_views(out@);
        match str_field(body, key) {
            Some(v) => {
                out.push(v);
                assert(string_views(out@) =~= before.push(v@));
            },
            None => {
                proof {
                    lemma_projected_err_extends(fields, ks, i + 1, key@);
                }
                return Err(SecretError::MissingKey(key.to_owned()));
            },
        }
        i += 1;
    }
    assert(ks.take(keys@.len() as int) =~= ks);
    Ok(out)
}

} // verus!
