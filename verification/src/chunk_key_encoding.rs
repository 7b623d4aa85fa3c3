//! The N5 block layout: the key under which a chunk is stored.
use vstd::prelude::*;
use vstd::string::StringExecFns;

use crate::error::PluginCreateError;
use crate::text::{decimal, is_digit, law_decimal_is_one_to_one, lemma_decimal_is_digits};
use crate::text::{lemma_digit_is_no_separator, push_decimal, same_text};

verus! {

/// Name under which the encoding is registered.
pub const CHUNK_KEY_ENCODING_NAME: &'static str = "zarrs.n5";

/// Short alias of [`CHUNK_KEY_ENCODING_NAME`].
pub const CHUNK_KEY_ENCODING_ALIAS: &'static str = "n5";

/// Chunk key encoding of N5: the grid indices in reverse order, joined by
/// `/`.
#[derive(Debug, Clone, Copy, PartialEq, Eq, Structural)]
pub struct N5ChunkKeyEncoding;

/// The key of the chunk at `indices`: the decimal indices, last one first,
/// separated by `/`, with no separator at either end.
pub open spec fn chunk_key(indices: Seq<u64>) -> Seq<char>
    decreases indices.len(),
{
    if indices.len() == 0 {
        Seq::empty()
    } else if indices.len() == 1 {
        decimal(indices[0] as nat)
    } else {
        decimal(indices.last() as nat) + seq!['/'] + chunk_key(indices.drop_last())
    }
}

/// The key of a chunk is made of digits and separators, and begins and
/// ends with a digit: there is no separator at either end.
pub proof fn law_key_has_no_outer_separator(indices: Seq<u64>)
    requires
        indices.len() > 0,
    ensures
        chunk_key(indices).len() > 0,
        is_digit(chunk_key(indices).first()),
        is_digit(chunk_key(indices).last()),
        forall|i: int|
            0 <= i < chunk_key(indices).len() ==> is_digit(#[trigger] chunk_key(indices)[i])
                || chunk_key(indices)[i] == '/',
    decreases indices.len(),
{
    let key = chunk_key(indices);
    let head = decimal(indices.last() as nat);
    lemma_decimal_is_digits(indices.last() as nat);
    if indices.len() == 1 {
        assert(indices.last() == indices[0]);
    } else {
        let rest = chunk_key(indices.drop_last());
        law_key_has_no_outer_separator(indices.drop_last());
        assert(key == head + seq!['/'] + rest);
        assert(key.first() == head[0]);
        assert(key.last() == rest.last());
        assert forall|i: int| 0 <= i < key.len() implies is_digit(#[trigger] key[i]) || key[i]
            == '/' by {
            if i < head.len() {
                assert(key[i] == head[i]);
            } else if i == head.len() {
                assert(key[i] == '/');
            } else {
                assert(key[i] == rest[i - head.len() - 1]);
            }
        }
    }
}

/// The key of a chunk with one more index in front is the key without it,
/// behind a separator: the first index comes last.
pub proof fn law_first_index_comes_last(first: u64, rest: Seq<u64>)
    requires
        rest.len() > 0,
    ensures
        chunk_key(seq![first] + rest) == chunk_key(rest) + seq!['/'] + decimal(first as nat),
    decreases rest.len(),
{
    let all = seq![first] + rest;
    assert(all.last() == rest.last());
    if rest.len() == 1 {
        assert(all.drop_last() =~= seq![first]);
        assert(chunk_key(seq![first]) == decimal(first as nat));
        assert(rest.last() == rest[0]);
    } else {
        assert(all.drop_last() =~= seq![first] + rest.drop_last());
        law_first_index_comes_last(first, rest.drop_last());
        assert(chunk_key(all) =~= chunk_key(rest) + seq!['/'] + decimal(first as nat));
    }
}

/// The key of a single index holds no separator.
proof fn lemma_single_key_has_no_separator(indices: Seq<u64>)
    requires
        indices.len() == 1,
    ensures
        forall|i: int| 0 <= i < chunk_key(indices).len() ==> chunk_key(indices)[i] != '/',
{
    lemma_decimal_is_digits(indices[0] as nat);
    assert forall|i: int| 0 <= i < chunk_key(indices).len() implies chunk_key(indices)[i]
        != '/' by {
        lemma_digit_is_no_separator(chunk_key(indices)[i]);
    }
}

/// The key of several indices holds a separator right behind the digits
/// of the last index, and none before.
proof fn lemma_first_separator(indices: Seq<u64>)
    requires
        indices.len() >= 2,
    ensures
        ({
            let head = decimal(indices.last() as nat);
            let key = chunk_key(indices);
            &&& head.len() >= 1
            &&& key.len() > head.len()
            &&& key[head.len() as int] == '/'
            &&& forall|i: int| 0 <= i < head.len() ==> key[i] == head[i] && key[i] != '/'
            &&& key.subrange(0, head.len() as int) == head
            &&& key.subrange(head.len() as int + 1, key.len() as int) == chunk_key(indices.drop_last())
        }),
{
    let head = decimal(indices.last() as nat);
    let rest = chunk_key(indices.drop_last());
    let key = chunk_key(indices);
    lemma_decimal_is_digits(indices.last() as nat);
    assert(key == head + seq!['/'] + rest);
    assert forall|i: int| 0 <= i < head.len() implies key[i] == head[i] && key[i] != '/' by {
        lemma_digit_is_no_separator(head[i]);
    }
    assert(key.subrange(0, head.len() as int) =~= head);
    assert(key.subrange(head.len() as int + 1, key.len() as int) =~= rest);
}

/// Two lists of indices with the same key are the same list: the key
/// gives the indices back.
pub proof fn law_key_is_one_to_one(a: Seq<u64>, b: Seq<u64>)
    requires
        chunk_key(a) == chunk_key(b),
    ensures
        a == b,
    decreases a.len(),
{
    if a.len() > 0 {
        law_key_has_no_outer_separator(a);
    }
    if b.len() > 0 {
        law_key_has_no_outer_separator(b);
    }
    if a.len() == 0 || b.len() == 0 {
        assert(a =~= b);
    } else if a.len() == 1 && b.len() == 1 {
        law_decimal_is_one_to_one(a[0] as nat, b[0] as nat);
        assert(a =~= b);
    } else if a.len() == 1 {
        lemma_single_key_has_no_separator(a);
        lemma_first_separator(b);
        assert(false);
    } else if b.len() == 1 {
        lemma_single_key_has_no_separator(b);
        lemma_first_separator(a);
        assert(false);
    } else {
        lemma_first_separator(a);
        lemma_first_separator(b);
        let head_a = decimal(a.last() as nat);
        let head_b = decimal(b.last() as nat);
        let key = chunk_key(a);
        if head_a.len() < head_b.len() {
            assert(key[head_a.len() as int] == '/');
            assert(false);
        }
        if head_b.len() < head_a.len() {
            assert(key[head_b.len() as int] == '/');
            assert(false);
        }
        assert(head_a == head_b);
        law_decimal_is_one_to_one(a.last() as nat, b.last() as nat);
        assert(chunk_key(a.drop_last()) == chunk_key(b.drop_last()));
        law_key_is_one_to_one(a.drop_last(), b.drop_last());
        assert(a =~= a.drop_last().push(a.last()));
        assert(b =~= b.drop_last().push(b.last()));
    }
}

/// Whether `name` is one of the names of the encoding.
pub open spec fn is_encoding_name(name: Seq<char>) -> bool {
    name == CHUNK_KEY_ENCODING_NAME@ || name == CHUNK_KEY_ENCODING_ALIAS@
}

impl N5ChunkKeyEncoding {
    /// Creates the encoding from the name and configuration of a metadata
    /// entry.
    ///
    /// The name must be one of the names of the encoding, which is checked
    /// first, and the configuration must be absent or empty.
    pub fn create(name: &str, configuration_is_none_or_empty: bool) -> (result: Result<
        Self,
        PluginCreateError,
    >)
        ensures
            match result {
                Ok(_) => is_encoding_name(name@) && configuration_is_none_or_empty,
                Err(PluginCreateError::NameInvalid { name: found }) => !is_encoding_name(
                    name@,
                ) && found@ == name@,
                Err(PluginCreateError::ConfigurationInvalid) => is_encoding_name(name@)
                    && !configuration_is_none_or_empty,
                Err(PluginCreateError::Other(_)) => false,
            },
    {
        if !(same_text(name, CHUNK_KEY_ENCODING_NAME) || same_text(name, CHUNK_KEY_ENCODING_ALIAS)) {
            return Err(PluginCreateError::NameInvalid { name: name.to_owned() });
        }
        if !configuration_is_none_or_empty {
            return Err(PluginCreateError::ConfigurationInvalid);
        }
        Ok(N5ChunkKeyEncoding)
    }

    /// The storage key of the chunk at `chunk_grid_indices`.
    pub fn encode(&self, chunk_grid_indices: &[u64]) -> (key: String)
        ensures
            key@ == chunk_key(chunk_grid_indices@),
    {
        let mut key = String::new();
        let mut i: usize = chunk_grid_indices.len();
        assert(chunk_grid_indices@.take(i as int) =~= chunk_grid_indices@);
        while i > 0
            invariant
                i <= chunk_grid_indices@.len(),
                chunk_key(chunk_grid_indices@) == key@ + chunk_key(
                    chunk_grid_indices@.take(i as int),
                ),
            decreases i,
        {
            let ghost head = key@;
            let ghost rest = chunk_grid_indices@.take(i as int);
            i -= 1;
            push_decimal(&mut key, chunk_grid_indices[i]);
            assert(rest.last() == chunk_grid_indices@[i as int]);
            assert(rest.drop_last() =~= chunk_grid_indices@.take(i as int));
            if i > 0 {
                proof {
                    reveal_strlit("/");
                }
                key.append("/");
                assert("/"@ =~= seq!['/']);
                assert(key@ + chunk_key(chunk_grid_indices@.take(i as int)) =~= head + chunk_key(
                    rest,
                ));
            } else {
                assert(key@ + chunk_key(chunk_grid_indices@.take(i as int)) =~= head + chunk_key(
                    rest,
                ));
            }
        }
        assert(key@ + chunk_key(chunk_grid_indices@.take(0)) =~= key@);
        key
    }
}

} // verus!
