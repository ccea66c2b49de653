//! Dependency validation: filtering a raw comma-separated string against the
//! fixed allow-list of recognized dependency identifiers, preserving order.

use vstd::prelude::*;

use crate::strutil::{spec_trim, str_equal, trim_str};

verus! {

/// Membership in the fixed allow-list of recognized dependency identifiers.
pub open spec fn is_allowed_token(t: Seq<char>) -> bool {
    ||| t == "web"@
    ||| t == "data-jpa"@
    ||| t == "security"@
    ||| t == "thymeleaf"@
    ||| t == "actuator"@
    ||| t == "batch"@
    ||| t == "kafka"@
    ||| t == "devtools"@
    ||| t == "mail"@
    ||| t == "flyway"@
    ||| t == "liquibase"@
    ||| t == "redis"@
    ||| t == "amqp"@
    ||| t == "validation"@
    ||| t == "h2"@
    ||| t == "web-services"@
    ||| t == "graphql"@
    ||| t == "cache"@
    ||| t == "mysql"@
    ||| t == "postgresql"@
}

/// Decides membership in the allow-list (case-sensitive, exact match).
pub fn token_is_allowed(t: &str) -> (r: bool)
    ensures
        r == is_allowed_token(t@),
{
    str_equal(t, "web") || str_equal(t, "data-jpa") || str_equal(t, "security") || str_equal(
        t,
        "thymeleaf",
    ) || str_equal(t, "actuator") || str_equal(t, "batch") || str_equal(t, "kafka") || str_equal(
        t,
        "devtools",
    ) || str_equal(t, "mail") || str_equal(t, "flyway") || str_equal(t, "liquibase") || str_equal(
        t,
        "redis",
    ) || str_equal(t, "amqp") || str_equal(t, "validation") || str_equal(t, "h2") || str_equal(
        t,
        "web-services",
    ) || str_equal(t, "graphql") || str_equal(t, "cache") || str_equal(t, "mysql") || str_equal(
        t,
        "postgresql",
    )
}

/// The pieces of `s` between commas, in order. An input without a comma is a
/// single piece; each comma separates two (possibly empty) pieces.
pub open spec fn spec_split_commas(s: Seq<char>) -> Seq<Seq<char>>
    decreases s.len(),
{
    if s.len() == 0 {
        seq![s]
    } else if s[0] == ',' {
        seq![Seq::<char>::empty()] + spec_split_commas(s.drop_first())
    } else {
        let rest = spec_split_commas(s.drop_first());
        seq![seq![s[0]] + rest[0]] + rest.drop_first()
    }
}

/// Splitting always yields at least one piece.
pub proof fn lemma_split_nonempty(s: Seq<char>)
    ensures
        spec_split_commas(s).len() >= 1,
    decreases s.len(),
{
    if s.len() > 0 {
        lemma_split_nonempty(s.drop_first());
    }
}

/// If the first `k` characters of `s` hold no comma and `s[k]` (when it
/// exists) is a comma, then the first piece of the split is `s.take(k)` and
/// the remaining pieces split the text after that comma.
pub proof fn lemma_split_first_piece(s: Seq<char>, k: int)
    requires
        0 <= k <= s.len(),
        forall|j: int| 0 <= j < k ==> s[j] != ',',
        k < s.len() ==> s[k] == ',',
    ensures
        k == s.len() ==> spec_split_commas(s) == seq![s],
        k < s.len() ==> spec_split_commas(s) == seq![s.take(k)] + spec_split_commas(
            s.skip(k + 1),
        ),
    decreases s.len(),
{
    if s.len() == 0 {
        assert(spec_split_commas(s) =~= seq![s]);
    } else if k == 0 {
        if s[0] == ',' {
            assert(s.take(0) =~= Seq::<char>::empty());
            assert(s.skip(1) =~= s.drop_first());
        }
    } else {
        let d = s.drop_first();
        lemma_split_first_piece(d, k - 1);
        let rest = spec_split_commas(d);
        lemma_split_nonempty(d);
        if k == s.len() {
            assert(rest == seq![d]);
            assert(seq![s[0]] + rest[0] =~= s);
            assert(rest.drop_first() =~= Seq::<Seq<char>>::empty());
            assert(spec_split_commas(s) =~= seq![s]);
        } else {
            assert(rest == seq![d.take(k - 1)] + spec_split_commas(d.skip(k)));
            assert(rest[0] == d.take(k - 1));
            assert(seq![s[0]] + d.take(k - 1) =~= s.take(k));
            assert(rest.drop_first() =~= spec_split_commas(d.skip(k)));
            assert(d.skip(k) =~= s.skip(k + 1));
            assert(spec_split_commas(s) =~= seq![s.take(k)] + spec_split_commas(s.skip(k + 1)));
        }
    }
}

/// The validated tokens arising from the given pieces: each piece is trimmed
/// of surrounding whitespace and kept exactly when the trimmed text is an
/// allow-list member, in order.
pub open spec fn spec_validate_pieces(pieces: Seq<Seq<char>>) -> Seq<Seq<char>>
    decreases pieces.len(),
{
    if pieces.len() == 0 {
        Seq::empty()
    } else {
        let rest = spec_validate_pieces(pieces.drop_last());
        let t = spec_trim(pieces.last());
        if is_allowed_token(t) {
            rest.push(t)
        } else {
            rest
        }
    }
}

/// The validated dependency tokens of a raw comma-separated string: split on
/// commas, trim each piece, keep the allow-list members in order.
pub open spec fn spec_validate(raw: Seq<char>) -> Seq<Seq<char>> {
    spec_validate_pieces(spec_split_commas(raw))
}

/// Appends `spec_trim(piece@)` to `acc` exactly when it is an allow-list
/// member; otherwise leaves `acc` unchanged.
fn keep_if_allowed(piece: &str, acc: &mut Vec<String>)
    ensures
        final(acc).deep_view() == if is_allowed_token(spec_trim(piece@)) {
            old(acc).deep_view().push(spec_trim(piece@))
        } else {
            old(acc).deep_view()
        },
{
    let t = trim_str(piece);
    if token_is_allowed(t) {
        let owned = t.to_owned();
        acc.push(owned);
        proof {
            assert(acc.deep_view() =~= old(acc).deep_view().push(spec_trim(piece@)));
        }
    }
}

/// Splits `raw` on commas, trims surrounding whitespace from each piece, and
/// returns, in their original relative order, exactly the pieces whose
/// trimmed text is a member of the fixed allow-list. Unknown, blank and
/// untrimmable pieces are silently dropped.
pub fn validate_dependencies(raw: &str) -> (r: Vec<String>)
    ensures
        r.deep_view() == spec_validate(raw@),
{
    let n = raw.unicode_len();
    let mut result: Vec<String> = Vec::new();
    let ghost mut done: Seq<Seq<char>> = Seq::empty();
    let mut start: usize = 0;
    let mut i: usize = 0;
    proof {
        assert(raw@.skip(0) =~= raw@);
        assert(done + spec_split_commas(raw@) =~= spec_split_commas(raw@));
    }
    while i < n
        invariant
            0 <= start <= i <= n,
            n == raw@.len(),
            forall|j: int| start <= j < i ==> raw@[j] != ',',
            spec_split_commas(raw@) == done + spec_split_commas(raw@.skip(start as int)),
            result.deep_view() == spec_validate_pieces(done),
        decreases n - i,
    {
        if raw.get_char(i) == ',' {
            let piece = raw.substring_char(start, i);
            keep_if_allowed(piece, &mut result);
            proof {
                let rest = raw@.skip(start as int);
                lemma_split_first_piece(rest, i - start);
                assert(rest.take(i - start) =~= piece@);
                assert(rest.skip(i - start + 1) =~= raw@.skip(i + 1));
                let done2 = done.push(piece@);
                assert(done + (seq![piece@] + spec_split_commas(raw@.skip(i + 1))) =~= done2
                    + spec_split_commas(raw@.skip(i + 1)));
                assert(done2.drop_last() =~= done);
                done = done2;
            }
            start = i + 1;
        }
        i = i + 1;
    }
    let piece = raw.substring_char(start, n);
    keep_if_allowed(piece, &mut result);
    proof {
        let rest = raw@.skip(start as int);
        lemma_split_first_piece(rest, n - start);
        assert(rest =~= piece@);
        let done2 = done.push(piece@);
        assert(done + seq![piece@] =~= done2);
        assert(done2.drop_last() =~= done);
        assert(spec_split_commas(raw@) == done2);
    }
    result
}

/// Every validated token is a member of the fixed allow-list, and every
/// validated token is the whitespace-trimmed text of one of the raw input's
/// comma-separated pieces; nothing enters the output that was absent from
/// the input.
pub proof fn lemma_validate_sound(raw: Seq<char>)
    ensures
        forall|i: int|
            0 <= i < spec_validate(raw).len() ==> is_allowed_token(#[trigger] spec_validate(raw)[i]),
        forall|i: int|
            0 <= i < spec_validate(raw).len() ==> exists|j: int|
                0 <= j < spec_split_commas(raw).len() && #[trigger] spec_validate(raw)[i]
                    == spec_trim(#[trigger] spec_split_commas(raw)[j]),
{
    lemma_validate_pieces_sound(spec_split_commas(raw));
}

/// Every token kept from `pieces` is an allow-list member and is the trim of
/// one of the pieces.
pub proof fn lemma_validate_pieces_sound(pieces: Seq<Seq<char>>)
    ensures
        forall|i: int|
            0 <= i < spec_validate_pieces(pieces).len() ==> is_allowed_token(
                #[trigger] spec_validate_pieces(pieces)[i],
            ),
        forall|i: int|
            0 <= i < spec_validate_pieces(pieces).len() ==> exists|j: int|
                0 <= j < pieces.len() && #[trigger] spec_validate_pieces(pieces)[i] == spec_trim(
                    #[trigger] pieces[j],
                ),
    decreases pieces.len(),
{
    if pieces.len() > 0 {
        let prev = pieces.drop_last();
        lemma_validate_pieces_sound(prev);
        let v = spec_validate_pieces(pieces);
        let vp = spec_validate_pieces(prev);
        assert forall|i: int| 0 <= i < v.len() implies is_allowed_token(v[i]) && exists|j: int|
            0 <= j < pieces.len() && v[i] == spec_trim(#[trigger] pieces[j]) by {
            if i < vp.len() {
                assert(v[i] == vp[i]);
                let j = choose|j: int|
                    0 <= j < prev.len() && vp[i] == spec_trim(#[trigger] prev[j]);
                assert(pieces[j] == prev[j]);
                assert(v[i] == spec_trim(pieces[j]));
            } else {
                assert(v[i] == spec_trim(pieces.last()));
                assert(v[i] == spec_trim(pieces[pieces.len() - 1]));
            }
        }
    }
}

} // verus!
