//! What holds of every command line.

use vstd::prelude::*;
use crate::args::ArgsView;
use crate::args::Scan;
use crate::args::flag_at;
use crate::args::given;
use crate::args::given_twice;
use crate::args::is_cluster;
use crate::args::names;
use crate::args::parsed;
use crate::error::Flag;
use crate::error::UsageError;

verus! {


/// Whether the letter of the flag is among the characters.
spec fn among(chars: Seq<char>, flag: Flag) -> bool {
    exists|k: int| 0 <= k < chars.len() && Flag::of_letter(#[trigger] chars[k]) == Some(flag)
}

/// Whether the letter of the flag is among the characters twice.
spec fn twice_among(chars: Seq<char>, flag: Flag) -> bool {
    exists|k1: int, k2: int|
        0 <= k1 < k2 < chars.len() && Flag::of_letter(#[trigger] chars[k1]) == Some(flag)
            && Flag::of_letter(#[trigger] chars[k2]) == Some(flag)
}

/// The letters of a cluster that is accepted set their flags and nothing
/// else.
proof fn lemma_letters_accepted(scan: Scan, chars: Seq<char>, flag: Flag)
    requires
        scan.letters(chars) is Ok,
    ensures
        scan.letters(chars)->Ok_0.has(flag) <==> scan.has(flag) || among(chars, flag),
        scan.letters(chars)->Ok_0.source == scan.source,
        scan.letters(chars)->Ok_0.file == scan.file,
    decreases chars.len(),
{
    if chars.len() > 0 {
        let next = scan.letter(chars.first())->Ok_0;
        let rest = chars.drop_first();
        lemma_letters_accepted(next, rest, flag);
        if among(rest, flag) {
            let k = choose|k: int| 0 <= k < rest.len() && Flag::of_letter(#[trigger] rest[k]) == Some(flag);
            assert(chars[k + 1] == rest[k]);
        }
        if among(chars, flag) {
            let k = choose|k: int| 0 <= k < chars.len() && Flag::of_letter(#[trigger] chars[k]) == Some(flag);
            if k > 0 {
                assert(rest[k - 1] == chars[k]);
            }
        }
    }
}

/// A cluster is refused for a duplicate only.
proof fn lemma_letters_refused(scan: Scan, chars: Seq<char>)
    requires
        scan.letters(chars) is Err,
    ensures
        scan.letters(chars)->Err_0 matches UsageError::DuplicateFlag(flag) && ((scan.has(flag)
            && among(chars, flag)) || twice_among(chars, flag)),
    decreases chars.len(),
{
    if chars.len() > 0 {
        let rest = chars.drop_first();
        match scan.letter(chars.first()) {
            Err(e) => {
                let flag = Flag::of_letter(chars[0])->Some_0;
                assert(among(chars, flag));
            },
            Ok(next) => {
                lemma_letters_refused(next, rest);
                let flag = next.letters(rest)->Err_0->DuplicateFlag_0;
                if twice_among(rest, flag) {
                    let (k1, k2) = choose|k1: int, k2: int|
                        0 <= k1 < k2 < rest.len() && Flag::of_letter(#[trigger] rest[k1]) == Some(
                            flag,
                        ) && Flag::of_letter(#[trigger] rest[k2]) == Some(flag);
                    assert(chars[k1 + 1] == rest[k1]);
                    assert(chars[k2 + 1] == rest[k2]);
                } else {
                    let k = choose|k: int|
                        0 <= k < rest.len() && Flag::of_letter(#[trigger] rest[k]) == Some(flag);
                    assert(chars[k + 1] == rest[k]);
                    if !scan.has(flag) {
                        assert(Flag::of_letter(chars[0]) == Some(flag));
                    }
                }
            },
        }
    }
}

/// A cluster that holds the letter of a flag met before is refused.
proof fn lemma_letters_seen(scan: Scan, chars: Seq<char>, flag: Flag, k: int)
    requires
        scan.has(flag),
        0 <= k < chars.len(),
        Flag::of_letter(chars[k]) == Some(flag),
    ensures
        scan.letters(chars) matches Err(UsageError::DuplicateFlag(_)),
    decreases chars.len(),
{
    if k > 0 {
        match scan.letter(chars.first()) {
            Err(e) => {},
            Ok(next) => {
                let rest = chars.drop_first();
                assert(rest[k - 1] == chars[k]);
                lemma_letters_seen(next, rest, flag, k - 1);
            },
        }
    }
}

/// A cluster that holds the letter of a flag twice is refused.
proof fn lemma_letters_twice(scan: Scan, chars: Seq<char>, flag: Flag, k1: int, k2: int)
    requires
        0 <= k1 < k2 < chars.len(),
        Flag::of_letter(chars[k1]) == Some(flag),
        Flag::of_letter(chars[k2]) == Some(flag),
    ensures
        scan.letters(chars) matches Err(UsageError::DuplicateFlag(_)),
    decreases chars.len(),
{
    match scan.letter(chars.first()) {
        Err(e) => {},
        Ok(next) => {
            let rest = chars.drop_first();
            assert(rest[k2 - 1] == chars[k2]);
            if k1 == 0 {
                lemma_letters_seen(next, rest, flag, k2 - 1);
            } else {
                assert(rest[k1 - 1] == chars[k1]);
                lemma_letters_twice(next, rest, flag, k1 - 1, k2 - 1);
            }
        },
    }
}

/// The places of a flag in a command line, seen from its second token on.
proof fn lemma_flag_at_rest(tokens: Seq<Seq<char>>, flag: Flag, i: int, j: int)
    requires
        tokens.len() > 0,
    ensures
        i >= 0 ==> (flag_at(tokens.drop_first(), flag, i, j) <==> flag_at(tokens, flag, i + 1, j)),
{
    let rest = tokens.drop_first();
    if 0 <= i < rest.len() {
        assert(rest[i] == tokens[i + 1]);
    }
}

/// The places of a flag in the first token are those of its letter behind
/// the dash.
proof fn lemma_flag_at_first(tokens: Seq<Seq<char>>, flag: Flag)
    requires
        tokens.len() > 0,
        is_cluster(tokens[0]),
    ensures
        among(tokens[0].drop_first(), flag) <==> exists|j: int| flag_at(tokens, flag, 0, j),
{
    let chars = tokens[0].drop_first();
    if among(chars, flag) {
        let k = choose|k: int| 0 <= k < chars.len() && Flag::of_letter(#[trigger] chars[k]) == Some(flag);
        assert(tokens[0][k + 1] == chars[k]);
        assert(flag_at(tokens, flag, 0, k + 1));
    }
    if exists|j: int| flag_at(tokens, flag, 0, j) {
        let j = choose|j: int| flag_at(tokens, flag, 0, j);
        assert(chars[j - 1] == tokens[0][j]);
    }
}

/// One token that is accepted sets the flags given in it and no other.
proof fn lemma_token_accepted(scan: Scan, tokens: Seq<Seq<char>>, flag: Flag)
    requires
        tokens.len() > 0,
        scan.token(tokens[0]) is Ok,
    ensures
        scan.token(tokens[0])->Ok_0.has(flag) <==> scan.has(flag) || exists|j: int|
            flag_at(tokens, flag, 0, j),
{
    if is_cluster(tokens[0]) {
        lemma_letters_accepted(scan, tokens[0].drop_first(), flag);
        lemma_flag_at_first(tokens, flag);
    }
}

/// The tokens that are accepted set the flags given in them and no other.
proof fn lemma_tokens_accepted(scan: Scan, tokens: Seq<Seq<char>>, flag: Flag)
    requires
        scan.tokens(tokens) is Ok,
    ensures
        scan.tokens(tokens)->Ok_0.has(flag) <==> scan.has(flag) || given(tokens, flag),
    decreases tokens.len(),
{
    if tokens.len() > 0 {
        let next = scan.token(tokens.first())->Ok_0;
        let rest = tokens.drop_first();
        lemma_token_accepted(scan, tokens, flag);
        lemma_tokens_accepted(next, rest, flag);
        if given(rest, flag) {
            let (i, j) = choose|i: int, j: int| flag_at(rest, flag, i, j);
            lemma_flag_at_rest(tokens, flag, i, j);
        }
        if given(tokens, flag) {
            let (i, j) = choose|i: int, j: int| flag_at(tokens, flag, i, j);
            if i > 0 {
                lemma_flag_at_rest(tokens, flag, i - 1, j);
            }
        }
    }
}

/// Tokens that give a flag met before are refused.
proof fn lemma_tokens_seen(scan: Scan, tokens: Seq<Seq<char>>, flag: Flag, i: int, j: int)
    requires
        scan.has(flag),
        flag_at(tokens, flag, i, j),
    ensures
        scan.tokens(tokens) matches Err(UsageError::DuplicateFlag(_)),
    decreases tokens.len(),
{
    let rest = tokens.drop_first();
    if i == 0 {
        let chars = tokens[0].drop_first();
        assert(chars[j - 1] == tokens[0][j]);
        lemma_letters_seen(scan, chars, flag, j - 1);
    } else {
        match scan.token(tokens.first()) {
            Err(e) => {
                lemma_letters_refused(scan, tokens[0].drop_first());
            },
            Ok(next) => {
                lemma_token_accepted(scan, tokens, flag);
                lemma_flag_at_rest(tokens, flag, i - 1, j);
                lemma_tokens_seen(next, rest, flag, i - 1, j);
            },
        }
    }
}

/// Tokens that give a flag at two places are refused.
proof fn lemma_tokens_twice(
    scan: Scan,
    tokens: Seq<Seq<char>>,
    flag: Flag,
    i1: int,
    j1: int,
    i2: int,
    j2: int,
)
    requires
        flag_at(tokens, flag, i1, j1),
        flag_at(tokens, flag, i2, j2),
        i1 < i2 || (i1 == i2 && j1 < j2),
    ensures
        scan.tokens(tokens) matches Err(UsageError::DuplicateFlag(_)),
    decreases tokens.len(),
{
    let rest = tokens.drop_first();
    if i1 == 0 && i2 == 0 {
        let chars = tokens[0].drop_first();
        assert(chars[j1 - 1] == tokens[0][j1]);
        assert(chars[j2 - 1] == tokens[0][j2]);
        lemma_letters_twice(scan, chars, flag, j1 - 1, j2 - 1);
    } else {
        match scan.token(tokens.first()) {
            Err(e) => {
                lemma_letters_refused(scan, tokens[0].drop_first());
            },
            Ok(next) => {
                lemma_flag_at_rest(tokens, flag, i2 - 1, j2);
                if i1 == 0 {
                    lemma_token_accepted(scan, tokens, flag);
                    lemma_tokens_seen(next, rest, flag, i2 - 1, j2);
                } else {
                    lemma_flag_at_rest(tokens, flag, i1 - 1, j1);
                    lemma_tokens_twice(next, rest, flag, i1 - 1, j1, i2 - 1, j2);
                }
            },
        }
    }
}

/// Tokens are refused for a duplicate only.
proof fn lemma_tokens_refused(scan: Scan, tokens: Seq<Seq<char>>)
    requires
        scan.tokens(tokens) is Err,
    ensures
        scan.tokens(tokens)->Err_0 matches UsageError::DuplicateFlag(flag) && ((scan.has(flag)
            && given(tokens, flag)) || given_twice(tokens, flag)),
    decreases tokens.len(),
{
    if tokens.len() > 0 {
        let rest = tokens.drop_first();
        match scan.token(tokens.first()) {
            Err(e) => {
                let chars = tokens[0].drop_first();
                lemma_letters_refused(scan, chars);
                let flag = e->DuplicateFlag_0;
                if twice_among(chars, flag) {
                    let (k1, k2) = choose|k1: int, k2: int|
                        0 <= k1 < k2 < chars.len() && Flag::of_letter(#[trigger] chars[k1]) == Some(
                            flag,
                        ) && Flag::of_letter(#[trigger] chars[k2]) == Some(flag);
                    assert(tokens[0][k1 + 1] == chars[k1]);
                    assert(tokens[0][k2 + 1] == chars[k2]);
                    assert(flag_at(tokens, flag, 0, k1 + 1) && flag_at(tokens, flag, 0, k2 + 1));
                } else {
                    lemma_flag_at_first(tokens, flag);
                    let j = choose|j: int| flag_at(tokens, flag, 0, j);
                    assert(flag_at(tokens, flag, 0, j));
                }
            },
            Ok(next) => {
                lemma_tokens_refused(next, rest);
                let flag = next.tokens(rest)->Err_0->DuplicateFlag_0;
                if given_twice(rest, flag) {
                    let (i1, j1, i2, j2) = choose|i1: int, j1: int, i2: int, j2: int|
                        #![trigger flag_at(rest, flag, i1, j1), flag_at(rest, flag, i2, j2)]
                        flag_at(rest, flag, i1, j1) && flag_at(rest, flag, i2, j2) && (i1 != i2
                            || j1 != j2);
                    lemma_flag_at_rest(tokens, flag, i1, j1);
                    lemma_flag_at_rest(tokens, flag, i2, j2);
                    assert(flag_at(tokens, flag, i1 + 1, j1) && flag_at(tokens, flag, i2 + 1, j2));
                } else {
                    let (i, j) = choose|i: int, j: int| flag_at(rest, flag, i, j);
                    lemma_flag_at_rest(tokens, flag, i, j);
                    assert(flag_at(tokens, flag, i + 1, j));
                    lemma_token_accepted(scan, tokens, flag);
                    if !scan.has(flag) {
                        let j0 = choose|j0: int| flag_at(tokens, flag, 0, j0);
                        assert(flag_at(tokens, flag, 0, j0) && flag_at(tokens, flag, i + 1, j));
                    }
                }
            },
        }
    }
}

/// A flag that is given twice is refused: where the letter of one flag stands
/// at two places of the command line, be it in one cluster or in two, the
/// command line is refused for a duplicate flag.
pub proof fn theorem_duplicate_is_refused(
    tokens: Seq<Seq<char>>,
    flag: Flag,
    i1: int,
    j1: int,
    i2: int,
    j2: int,
)
    requires
        flag_at(tokens, flag, i1, j1),
        flag_at(tokens, flag, i2, j2),
        i1 != i2 || j1 != j2,
    ensures
        parsed(tokens) matches Err(UsageError::DuplicateFlag(_)),
{
    if i1 < i2 || (i1 == i2 && j1 < j2) {
        lemma_tokens_twice(Scan::start(), tokens, flag, i1, j1, i2, j2);
    } else {
        lemma_tokens_twice(Scan::start(), tokens, flag, i2, j2, i1, j1);
    }
}

/// A command line is refused for a duplicate flag only where that flag is
/// given twice.
pub proof fn theorem_refused_flag_is_given_twice(tokens: Seq<Seq<char>>, flag: Flag)
    requires
        parsed(tokens) == Err::<ArgsView, UsageError>(UsageError::DuplicateFlag(flag)),
    ensures
        given_twice(tokens, flag),
{
    lemma_tokens_refused(Scan::start(), tokens);
}

/// The options of a command line that is accepted are the flags given on it,
/// and its target file has a name.
pub proof fn theorem_accepted_flags_are_given(tokens: Seq<Seq<char>>)
    requires
        parsed(tokens) is Ok,
    ensures
        parsed(tokens)->Ok_0.access <==> given(tokens, Flag::Access),
        parsed(tokens)->Ok_0.no_create <==> given(tokens, Flag::NoCreate),
        parsed(tokens)->Ok_0.modify <==> given(tokens, Flag::Modify),
        parsed(tokens)->Ok_0.source is Some ==> given(tokens, Flag::Reference),
        parsed(tokens)->Ok_0.file.len() > 0,
{
    lemma_tokens_accepted(Scan::start(), tokens, Flag::Access);
    lemma_tokens_accepted(Scan::start(), tokens, Flag::NoCreate);
    lemma_tokens_accepted(Scan::start(), tokens, Flag::Modify);
    lemma_tokens_accepted(Scan::start(), tokens, Flag::Reference);
    lemma_source_needs_flag(Scan::start(), tokens);
}

/// A reference file is taken only once `-r` was met.
proof fn lemma_source_needs_flag(scan: Scan, tokens: Seq<Seq<char>>)
    requires
        scan.tokens(tokens) is Ok,
        scan.source is Some ==> scan.reference,
    ensures
        scan.tokens(tokens)->Ok_0.source is Some ==> scan.tokens(tokens)->Ok_0.reference,
    decreases tokens.len(),
{
    if tokens.len() > 0 {
        let next = scan.token(tokens.first())->Ok_0;
        if is_cluster(tokens[0]) {
            lemma_letters_accepted(scan, tokens[0].drop_first(), Flag::Reference);
        }
        lemma_source_needs_flag(next, tokens.drop_first());
    }
}

/// Tokens that are all clusters name no file.
proof fn lemma_clusters_name_no_file(scan: Scan, tokens: Seq<Seq<char>>)
    requires
        scan.file is None,
        forall|i: int| 0 <= i < tokens.len() ==> is_cluster(#[trigger] tokens[i]),
        scan.tokens(tokens) is Ok,
    ensures
        scan.tokens(tokens)->Ok_0.file is None,
    decreases tokens.len(),
{
    if tokens.len() > 0 {
        let next = scan.token(tokens.first())->Ok_0;
        let rest = tokens.drop_first();
        lemma_letters_accepted(scan, tokens[0].drop_first(), Flag::Access);
        assert forall|i: int| 0 <= i < rest.len() implies is_cluster(#[trigger] rest[i]) by {
            assert(rest[i] == tokens[i + 1]);
        }
        lemma_clusters_name_no_file(next, rest);
    }
}

/// A command line of flags alone is refused: where every token is a cluster
/// of flags, no target file is named.
pub proof fn theorem_flags_alone_are_refused(tokens: Seq<Seq<char>>)
    requires
        forall|i: int| 0 <= i < tokens.len() ==> is_cluster(#[trigger] tokens[i]),
    ensures
        parsed(tokens) is Err,
        !(parsed(tokens) matches Err(UsageError::DuplicateFlag(_))) ==> parsed(tokens) == Err::<
            ArgsView,
            UsageError,
        >(UsageError::MissingFilename),
{
    if Scan::start().tokens(tokens) is Ok {
        lemma_clusters_name_no_file(Scan::start(), tokens);
    } else {
        lemma_tokens_refused(Scan::start(), tokens);
    }
}

/// The name at place `k`, if there is one.
spec fn name_at(values: Seq<Seq<char>>, k: int) -> Option<Seq<char>> {
    if 0 <= k < values.len() {
        Some(values[k])
    } else {
        None
    }
}

/// What is there already, or else the other.
spec fn or_else(held: Option<Seq<char>>, other: Option<Seq<char>>) -> Option<Seq<char>> {
    if held is Some {
        held
    } else {
        other
    }
}

/// Once `-r` was met, the first name fills the reference file if that is
/// open, and the next one the target file if that is open.
proof fn lemma_names_behind_flag(scan: Scan, tokens: Seq<Seq<char>>)
    requires
        scan.reference,
        scan.tokens(tokens) is Ok,
    ensures
        ({
            let end = scan.tokens(tokens)->Ok_0;
            let k: int = if scan.source is Some {
                0
            } else {
                1
            };
            &&& end.source == or_else(scan.source, name_at(names(tokens), 0))
            &&& end.file == or_else(scan.file, name_at(names(tokens), k))
        }),
    decreases tokens.len(),
{
    if tokens.len() > 0 {
        let next = scan.token(tokens.first())->Ok_0;
        let rest = tokens.drop_first();
        if is_cluster(tokens.first()) {
            lemma_letters_accepted(scan, tokens[0].drop_first(), Flag::Reference);
        }
        lemma_names_behind_flag(next, rest);
    }
}

/// Where `-r` is neither met nor given, the first name fills the target
/// file if that is open, and nothing fills the reference file.
proof fn lemma_names_without_flag(scan: Scan, tokens: Seq<Seq<char>>)
    requires
        !scan.reference,
        !given(tokens, Flag::Reference),
        scan.tokens(tokens) is Ok,
    ensures
        ({
            let end = scan.tokens(tokens)->Ok_0;
            &&& !end.reference
            &&& end.source == scan.source
            &&& end.file == or_else(scan.file, name_at(names(tokens), 0))
        }),
    decreases tokens.len(),
{
    if tokens.len() > 0 {
        let next = scan.token(tokens.first())->Ok_0;
        let rest = tokens.drop_first();
        lemma_token_accepted(scan, tokens, Flag::Reference);
        if exists|j: int| flag_at(tokens, Flag::Reference, 0, j) {
            let j = choose|j: int| flag_at(tokens, Flag::Reference, 0, j);
            assert(flag_at(tokens, Flag::Reference, 0, j));
        }
        if is_cluster(tokens.first()) {
            lemma_letters_accepted(scan, tokens[0].drop_first(), Flag::Reference);
        }
        if given(rest, Flag::Reference) {
            let (i, j) = choose|i: int, j: int| flag_at(rest, Flag::Reference, i, j);
            lemma_flag_at_rest(tokens, Flag::Reference, i, j);
            assert(flag_at(tokens, Flag::Reference, i + 1, j));
        }
        lemma_names_without_flag(next, rest);
    }
}

/// Where `-r` is given in token `i` and was not met before, the names before
/// it can fill the target file only, and those behind it fill what is open
/// then.
proof fn lemma_names_around_flag(scan: Scan, tokens: Seq<Seq<char>>, i: int, j: int)
    requires
        !scan.reference,
        flag_at(tokens, Flag::Reference, i, j),
        scan.tokens(tokens) is Ok,
    ensures
        ({
            let end = scan.tokens(tokens)->Ok_0;
            let before = names(tokens.take(i));
            let behind = names(tokens.skip(i + 1));
            let k: int = if scan.source is Some {
                0
            } else {
                1
            };
            &&& end.source == or_else(scan.source, name_at(behind, 0))
            &&& end.file == or_else(or_else(scan.file, name_at(before, 0)), name_at(behind, k))
        }),
    decreases tokens.len(),
{
    let next = scan.token(tokens.first())->Ok_0;
    let rest = tokens.drop_first();
    if i == 0 {
        lemma_token_accepted(scan, tokens, Flag::Reference);
        lemma_letters_accepted(scan, tokens[0].drop_first(), Flag::Reference);
        assert(tokens.take(0) =~= Seq::<Seq<char>>::empty());
        assert(tokens.skip(1) =~= rest);
        lemma_names_behind_flag(next, rest);
    } else {
        lemma_flag_at_rest(tokens, Flag::Reference, i - 1, j);
        lemma_token_accepted(scan, tokens, Flag::Reference);
        if next.reference {
            lemma_tokens_seen(next, rest, Flag::Reference, i - 1, j);
        }
        if is_cluster(tokens.first()) {
            lemma_letters_accepted(scan, tokens[0].drop_first(), Flag::Reference);
        }
        assert(tokens.take(i).first() == tokens.first());
        assert(tokens.take(i).drop_first() =~= rest.take(i - 1));
        assert(tokens.skip(i + 1) =~= rest.skip(i));
        lemma_names_around_flag(next, rest, i - 1, j);
    }
}

/// Without `-r`, the target file is the first name on the command line, and
/// there is no reference file.
pub proof fn theorem_target_is_first_name(tokens: Seq<Seq<char>>)
    requires
        parsed(tokens) is Ok,
        !given(tokens, Flag::Reference),
    ensures
        parsed(tokens)->Ok_0.source is None,
        names(tokens).len() > 0,
        parsed(tokens)->Ok_0.file == names(tokens)[0],
{
    lemma_names_without_flag(Scan::start(), tokens);
}

/// With `-r` in token `i`, the reference file is the first name behind that
/// token, wherever it stands, and the target file is the first name that is
/// not the reference file: the first one before token `i` if there is one,
/// and else the second one behind it.
pub proof fn theorem_reference_is_first_name_behind_flag(tokens: Seq<Seq<char>>, i: int, j: int)
    requires
        parsed(tokens) is Ok,
        flag_at(tokens, Flag::Reference, i, j),
    ensures
        ({
            let options = parsed(tokens)->Ok_0;
            let before = names(tokens.take(i));
            let behind = names(tokens.skip(i + 1));
            &&& options.source == if behind.len() > 0 {
                Some(behind[0])
            } else {
                None
            }
            &&& before.len() > 0 || behind.len() > 1
            &&& options.file == if before.len() > 0 {
                before[0]
            } else {
                behind[1]
            }
        }),
{
    lemma_names_around_flag(Scan::start(), tokens, i, j);
}

} // verus!
