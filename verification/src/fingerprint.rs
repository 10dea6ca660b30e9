//! Cache keys: an argument vector is joined with a separator token and the
//! joined text is digested.
//!
//! The separator is not escaped. An argument that holds it is joined to the
//! same text as the arguments it could be split into, and so shares their
//! key. Two vectors whose arguments hold no `@` are never joined to the same
//! text.

use crypto::digest::Digest;
use crypto::md5::Md5;
use vstd::prelude::*;
use vstd::string::*;

verus! {

/// The token that stands between two neighbouring arguments in the joined text.
pub open spec fn separator() -> Seq<char> {
    "@@join@@"@
}

/// The arguments in order, with the separator between each two neighbours.
/// Nothing is escaped or normalised.
pub open spec fn joined(args: Seq<Seq<char>>) -> Seq<char>
    decreases args.len(),
{
    if args.len() == 0 {
        Seq::empty()
    } else if args.len() == 1 {
        args[0]
    } else {
        joined(args.drop_last()) + separator() + args.last()
    }
}

/// Joins the arguments with the separator token.
pub fn concat_args(args: &[String]) -> (text: String)
    ensures
        text@ == joined(args.deep_view()),
{
    let ghost all = args.deep_view();
    let mut text = String::new();
    let mut i: usize = 0;
    while i < args.len()
        invariant
            i <= args.len(),
            all == args.deep_view(),
            text@ == joined(all.take(i as int)),
        decreases args.len() - i,
    {
        if i > 0 {
            text.append("@@join@@");
        }
        text.append(args[i].as_str());
        proof {
            let next = all.take(i + 1);
            assert(next.drop_last() == all.take(i as int));
            assert(next.last() == args[i as int]@);
            if i == 0 {
                assert(text@ == next[0]);
            }
        }
        i += 1;
    }
    proof {
        assert(all.take(i as int) == all);
    }
    text
}

/// The MD5 digest of a text's UTF-8 bytes, written as 32 lowercase
/// hexadecimal digits.
pub uninterp spec fn md5_hex(text: Seq<char>) -> Seq<char>;

/// A lowercase hexadecimal digit.
pub open spec fn is_lower_hex(c: char) -> bool {
    ('0' <= c && c <= '9') || ('a' <= c && c <= 'f')
}

/// The shape of every cache key: 32 lowercase hexadecimal digits.
pub open spec fn is_cache_key(key: Seq<char>) -> bool {
    &&& key.len() == 32
    &&& forall|i: int| 0 <= i < key.len() ==> is_lower_hex(#[trigger] key[i])
}

/// The cache key that belongs to an argument vector.
pub open spec fn cache_key(args: Seq<Seq<char>>) -> Seq<char> {
    md5_hex(joined(args))
}

/// Runs `crypto::md5::Md5` over the text: `Md5::new`, then `input_str` and
/// `result_str` of `crypto::digest::Digest`. Nothing here is proved. The
/// contract claims that the digest depends on the text alone, and that it is
/// written as two lowercase hexadecimal digits for each of its 16 bytes.
#[verifier::external_body]
fn md5_hex_digest(text: &str) -> (digest: String)
    ensures
        digest@ == md5_hex(text@),
        is_cache_key(digest@),
{
    let mut hasher = Md5::new();
    hasher.input_str(text);
    hasher.result_str()
}

/// Digests a text into the 32 hexadecimal digits of its MD5 sum.
pub fn hash(s: &str) -> (digest: String)
    ensures
        digest@ == md5_hex(s@),
        is_cache_key(digest@),
{
    md5_hex_digest(s)
}

/// Derives the cache key of an argument vector: the digest of the arguments
/// joined with the separator token. The key depends on nothing but the
/// arguments, their order included.
pub fn fingerprint(args: &[String]) -> (key: String)
    ensures
        key@ == cache_key(args.deep_view()),
        is_cache_key(key@),
{
    let text = concat_args(args);
    hash(text.as_str())
}

/// A vector of one argument is joined to that argument, unchanged.
pub proof fn lemma_joined_single(arg: Seq<char>)
    ensures
        joined(seq![arg]) == arg,
{
}

/// Appending an argument to a vector that is not empty appends the separator
/// and the argument to the joined text.
pub proof fn lemma_joined_push(args: Seq<Seq<char>>, arg: Seq<char>)
    requires
        args.len() > 0,
    ensures
        joined(args.push(arg)) == joined(args) + separator() + arg,
{
    assert(args.push(arg).drop_last() == args);
}

/// The key is a function of the arguments alone: vectors that agree element
/// by element have the same key, in every call and in every process.
pub proof fn lemma_key_is_deterministic(first: Seq<Seq<char>>, second: Seq<Seq<char>>)
    requires
        first.len() == second.len(),
        forall|i: int| 0 <= i < first.len() ==> first[i] == second[i],
    ensures
        joined(first) == joined(second),
        cache_key(first) == cache_key(second),
{
    assert(first =~= second);
}

/// An argument that holds no `@`, the character with which the separator
/// begins and ends.
pub open spec fn is_plain(arg: Seq<char>) -> bool {
    forall|i: int| 0 <= i < arg.len() ==> arg[i] != '@'
}

/// The separator is eight characters long and ends in `@`.
proof fn lemma_separator_shape()
    ensures
        separator().len() == 8,
        separator()[7] == '@',
{
    reveal_strlit("@@join@@");
}

/// Where a joined text of two or more arguments has its last separator: the
/// text before it, the separator's closing `@`, and the last argument behind.
proof fn lemma_joined_parts(args: Seq<Seq<char>>)
    requires
        args.len() >= 2,
    ensures
        ({
            let text = joined(args);
            let head = joined(args.drop_last());
            &&& text.len() == head.len() + 8 + args.last().len()
            &&& text[head.len() as int + 7] == '@'
            &&& forall|j: int| 0 <= j < head.len() ==> text[j] == head[j]
            &&& forall|j: int|
                0 <= j < args.last().len() ==> text[head.len() + 8 + j] == args.last()[j]
        }),
{
    lemma_separator_shape();
}

/// Arguments without `@` are joined without loss: two vectors of such
/// arguments, neither of them empty, that are joined to the same text are the
/// same vector.
pub proof fn lemma_joined_is_injective_on_plain_arguments(
    first: Seq<Seq<char>>,
    second: Seq<Seq<char>>,
)
    requires
        first.len() >= 1,
        second.len() >= 1,
        forall|i: int| 0 <= i < first.len() ==> is_plain(#[trigger] first[i]),
        forall|i: int| 0 <= i < second.len() ==> is_plain(#[trigger] second[i]),
        joined(first) == joined(second),
    ensures
        first == second,
    decreases first.len(),
{
    let text = joined(first);
    if first.len() == 1 || second.len() == 1 {
        if first.len() >= 2 {
            lemma_joined_parts(first);
            assert(is_plain(second[0]));
            assert(false);
        }
        if second.len() >= 2 {
            lemma_joined_parts(second);
            assert(is_plain(first[0]));
            assert(false);
        }
        assert(first =~= second);
    } else {
        let head_a = joined(first.drop_last());
        let head_b = joined(second.drop_last());
        let last_a = first.last();
        let last_b = second.last();
        lemma_joined_parts(first);
        lemma_joined_parts(second);
        assert(is_plain(last_a));
        assert(is_plain(last_b));
        if last_a.len() < last_b.len() {
            let at: int = head_a.len() as int + 7;
            assert(text[at] == last_b[at - head_b.len() - 8]);
            assert(false);
        }
        if last_b.len() < last_a.len() {
            let at: int = head_b.len() as int + 7;
            assert(text[at] == last_a[at - head_a.len() - 8]);
            assert(false);
        }
        assert(last_a =~= last_b) by {
            assert forall|j: int| 0 <= j < last_a.len() implies last_a[j] == last_b[j] by {
                assert(text[head_a.len() + 8 + j] == last_a[j]);
            }
        }
        assert(head_a =~= head_b);
        assert forall|i: int| 0 <= i < first.drop_last().len() implies is_plain(
            #[trigger] first.drop_last()[i],
        ) by {
            assert(first.drop_last()[i] == first[i]);
        }
        assert forall|i: int| 0 <= i < second.drop_last().len() implies is_plain(
            #[trigger] second.drop_last()[i],
        ) by {
            assert(second.drop_last()[i] == second[i]);
        }
        lemma_joined_is_injective_on_plain_arguments(first.drop_last(), second.drop_last());
        assert(first =~= first.drop_last().push(last_a));
        assert(second =~= second.drop_last().push(last_b));
    }
}

} // verus!
