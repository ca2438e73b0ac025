//! The argument synthesizer: concatenates the legacy argument string with
//! the plain entries of the structured argument list, substitutes the fixed
//! placeholder set, and trims the result.
//!
//! Substitution is a fixed, ordered sequence of exact substring
//! replacements; a `${...}` token outside the recognized set is left
//! untouched verbatim.

use vstd::prelude::*;
use crate::model::{GameArgument, VersionJson};
use crate::text::{
    contains_seq, is_token, lemma_replace_absent, lemma_replace_exact,
    lemma_replace_preserves_token, lemma_trim_keeps_pattern, replace, replace_spec, trim,
    trim_spec,
};

verus! {

/// The legacy argument string of the manifest, or empty when absent.
pub open spec fn legacy_args_spec(manifest: VersionJson) -> Seq<char> {
    match manifest.minecraft_arguments {
        Option::Some(s) => s@,
        Option::None => Seq::empty(),
    }
}

/// Concatenation of the first `i` structured entries: each plain entry
/// preceded by one space, each structured (conditional) entry ignored.
pub open spec fn plain_args_upto(args: Seq<GameArgument>, i: int) -> Seq<char>
    decreases i,
{
    if i <= 0 {
        Seq::empty()
    } else {
        plain_args_upto(args, i - 1) + match args[i - 1] {
            GameArgument::Plain(s) => " "@ + s@,
            GameArgument::Structured => Seq::empty(),
        }
    }
}

/// The raw argument string before substitution: the legacy string, then the
/// plain structured entries in order.
pub open spec fn raw_args_spec(manifest: VersionJson) -> Seq<char> {
    legacy_args_spec(manifest) + match manifest.arguments {
        Option::Some(a) => plain_args_upto(a.game@, a.game@.len() as int),
        Option::None => Seq::empty(),
    }
}

/// The manifest's asset index name, or empty when absent.
pub open spec fn assets_index_spec(manifest: VersionJson) -> Seq<char> {
    match manifest.assets {
        Option::Some(s) => s@,
        Option::None => Seq::empty(),
    }
}

/// The fixed, ordered substitution pass over the recognized placeholder
/// set: player name, version identifier, game directory, assets root,
/// assets index name, the all-zero placeholder UUID and access token, the
/// fixed user type, and the fixed version-type brand.
pub open spec fn substitute_spec(
    s: Seq<char>,
    player: Seq<char>,
    version: Seq<char>,
    root: Seq<char>,
    assets_root: Seq<char>,
    assets_index: Seq<char>,
) -> Seq<char> {
    let s1 = replace_spec(s, "${auth_player_name}"@, player);
    let s2 = replace_spec(s1, "${version_name}"@, version);
    let s3 = replace_spec(s2, "${game_directory}"@, root);
    let s4 = replace_spec(s3, "${assets_root}"@, assets_root);
    let s5 = replace_spec(s4, "${assets_index_name}"@, assets_index);
    let s6 = replace_spec(s5, "${auth_uuid}"@, "00000000-0000-0000-0000-000000000000"@);
    let s7 = replace_spec(s6, "${auth_access_token}"@, "00000000000000000000000000000000"@);
    let s8 = replace_spec(s7, "${user_type}"@, "legacy"@);
    replace_spec(s8, "${version_type}"@, "WMML 0.1.26"@)
}

/// The synthesized game-argument string: the raw concatenation, substituted
/// and trimmed. The assets root is `<root>\assets`.
pub open spec fn game_arguments_spec(
    root: Seq<char>,
    version: Seq<char>,
    player: Seq<char>,
    manifest: VersionJson,
) -> Seq<char> {
    trim_spec(
        substitute_spec(
            raw_args_spec(manifest),
            player,
            version,
            root,
            root + "\\assets"@,
            assets_index_spec(manifest),
        ),
    )
}

/// A string free of every recognized placeholder token — in particular one
/// holding only unrecognized `${...}` tokens — is left unchanged by the
/// substitution pass.
pub proof fn lemma_substitution_leaves_unrecognized(
    s: Seq<char>,
    player: Seq<char>,
    version: Seq<char>,
    root: Seq<char>,
    assets_root: Seq<char>,
    assets_index: Seq<char>,
)
    requires
        !contains_seq(s, "${auth_player_name}"@),
        !contains_seq(s, "${version_name}"@),
        !contains_seq(s, "${game_directory}"@),
        !contains_seq(s, "${assets_root}"@),
        !contains_seq(s, "${assets_index_name}"@),
        !contains_seq(s, "${auth_uuid}"@),
        !contains_seq(s, "${auth_access_token}"@),
        !contains_seq(s, "${user_type}"@),
        !contains_seq(s, "${version_type}"@),
    ensures
        substitute_spec(s, player, version, root, assets_root, assets_index) == s,
{
    lemma_replace_absent(s, "${auth_player_name}"@, player);
    lemma_replace_absent(s, "${version_name}"@, version);
    lemma_replace_absent(s, "${game_directory}"@, root);
    lemma_replace_absent(s, "${assets_root}"@, assets_root);
    lemma_replace_absent(s, "${assets_index_name}"@, assets_index);
    lemma_replace_absent(s, "${auth_uuid}"@, "00000000-0000-0000-0000-000000000000"@);
    lemma_replace_absent(s, "${auth_access_token}"@, "00000000000000000000000000000000"@);
    lemma_replace_absent(s, "${user_type}"@, "legacy"@);
    lemma_replace_absent(s, "${version_type}"@, "WMML 0.1.26"@);
}

/// Each recognized placeholder is a well-formed `${...}` token.
pub proof fn lemma_recognized_placeholders_are_tokens()
    ensures
        is_token("${auth_player_name}"@),
        is_token("${version_name}"@),
        is_token("${game_directory}"@),
        is_token("${assets_root}"@),
        is_token("${assets_index_name}"@),
        is_token("${auth_uuid}"@),
        is_token("${auth_access_token}"@),
        is_token("${user_type}"@),
        is_token("${version_type}"@),
{
    reveal_strlit("${auth_player_name}");
    reveal_strlit("${version_name}");
    reveal_strlit("${game_directory}");
    reveal_strlit("${assets_root}");
    reveal_strlit("${assets_index_name}");
    reveal_strlit("${auth_uuid}");
    reveal_strlit("${auth_access_token}");
    reveal_strlit("${user_type}");
    reveal_strlit("${version_type}");
    assert("${auth_player_name}"@.len() == 19);
    assert("${version_name}"@.len() == 15);
    assert("${game_directory}"@.len() == 17);
    assert("${assets_root}"@.len() == 14);
    assert("${assets_index_name}"@.len() == 20);
    assert("${auth_uuid}"@.len() == 12);
    assert("${auth_access_token}"@.len() == 20);
    assert("${user_type}"@.len() == 12);
    assert("${version_type}"@.len() == 15);
}

/// An unrecognized `${...}` token is left in place: a well-formed token
/// other than the nine recognized placeholders that occurs in the argument
/// string still occurs in it after the whole substitution pass.
pub proof fn lemma_substitution_keeps_unknown_token(
    s: Seq<char>,
    u: Seq<char>,
    player: Seq<char>,
    version: Seq<char>,
    root: Seq<char>,
    assets_root: Seq<char>,
    assets_index: Seq<char>,
)
    requires
        is_token(u),
        contains_seq(s, u),
        u != "${auth_player_name}"@,
        u != "${version_name}"@,
        u != "${game_directory}"@,
        u != "${assets_root}"@,
        u != "${assets_index_name}"@,
        u != "${auth_uuid}"@,
        u != "${auth_access_token}"@,
        u != "${user_type}"@,
        u != "${version_type}"@,
    ensures
        contains_seq(
            substitute_spec(s, player, version, root, assets_root, assets_index),
            u,
        ),
{
    lemma_recognized_placeholders_are_tokens();
    let s1 = replace_spec(s, "${auth_player_name}"@, player);
    let s2 = replace_spec(s1, "${version_name}"@, version);
    let s3 = replace_spec(s2, "${game_directory}"@, root);
    let s4 = replace_spec(s3, "${assets_root}"@, assets_root);
    let s5 = replace_spec(s4, "${assets_index_name}"@, assets_index);
    let s6 = replace_spec(s5, "${auth_uuid}"@, "00000000-0000-0000-0000-000000000000"@);
    let s7 = replace_spec(s6, "${auth_access_token}"@, "00000000000000000000000000000000"@);
    let s8 = replace_spec(s7, "${user_type}"@, "legacy"@);
    lemma_replace_preserves_token(s, "${auth_player_name}"@, player, u);
    lemma_replace_preserves_token(s1, "${version_name}"@, version, u);
    lemma_replace_preserves_token(s2, "${game_directory}"@, root, u);
    lemma_replace_preserves_token(s3, "${assets_root}"@, assets_root, u);
    lemma_replace_preserves_token(s4, "${assets_index_name}"@, assets_index, u);
    lemma_replace_preserves_token(
        s5,
        "${auth_uuid}"@,
        "00000000-0000-0000-0000-000000000000"@,
        u,
    );
    lemma_replace_preserves_token(
        s6,
        "${auth_access_token}"@,
        "00000000000000000000000000000000"@,
        u,
    );
    lemma_replace_preserves_token(s7, "${user_type}"@, "legacy"@, u);
    lemma_replace_preserves_token(s8, "${version_type}"@, "WMML 0.1.26"@, u);
}

/// The synthesized argument string keeps any unrecognized `${...}` token
/// the raw argument string holds: substitution leaves it in place and the
/// final trim cannot cut into it.
pub proof fn lemma_arguments_keep_unknown_token(
    u: Seq<char>,
    root: Seq<char>,
    version: Seq<char>,
    player: Seq<char>,
    manifest: VersionJson,
)
    requires
        is_token(u),
        contains_seq(raw_args_spec(manifest), u),
        u != "${auth_player_name}"@,
        u != "${version_name}"@,
        u != "${game_directory}"@,
        u != "${assets_root}"@,
        u != "${assets_index_name}"@,
        u != "${auth_uuid}"@,
        u != "${auth_access_token}"@,
        u != "${user_type}"@,
        u != "${version_type}"@,
    ensures
        contains_seq(game_arguments_spec(root, version, player, manifest), u),
{
    lemma_substitution_keeps_unknown_token(
        raw_args_spec(manifest),
        u,
        player,
        version,
        root,
        root + "\\assets"@,
        assets_index_spec(manifest),
    );
    lemma_trim_keeps_pattern(
        substitute_spec(
            raw_args_spec(manifest),
            player,
            version,
            root,
            root + "\\assets"@,
            assets_index_spec(manifest),
        ),
        u,
    );
}

/// Substitution is exhaustive on a recognized token: an argument string that
/// is exactly the player-name token becomes exactly the supplied player
/// name, provided the name itself holds no recognized token substituted
/// after it.
pub proof fn lemma_substitution_replaces_recognized(
    player: Seq<char>,
    version: Seq<char>,
    root: Seq<char>,
    assets_root: Seq<char>,
    assets_index: Seq<char>,
)
    requires
        !contains_seq(player, "${version_name}"@),
        !contains_seq(player, "${game_directory}"@),
        !contains_seq(player, "${assets_root}"@),
        !contains_seq(player, "${assets_index_name}"@),
        !contains_seq(player, "${auth_uuid}"@),
        !contains_seq(player, "${auth_access_token}"@),
        !contains_seq(player, "${user_type}"@),
        !contains_seq(player, "${version_type}"@),
    ensures
        substitute_spec(
            "${auth_player_name}"@,
            player,
            version,
            root,
            assets_root,
            assets_index,
        ) == player,
{
    reveal_strlit("${auth_player_name}");
    assert("${auth_player_name}"@.len() == 19);
    lemma_replace_exact("${auth_player_name}"@, player);
    lemma_replace_absent(player, "${version_name}"@, version);
    lemma_replace_absent(player, "${game_directory}"@, root);
    lemma_replace_absent(player, "${assets_root}"@, assets_root);
    lemma_replace_absent(player, "${assets_index_name}"@, assets_index);
    lemma_replace_absent(player, "${auth_uuid}"@, "00000000-0000-0000-0000-000000000000"@);
    lemma_replace_absent(player, "${auth_access_token}"@, "00000000000000000000000000000000"@);
    lemma_replace_absent(player, "${user_type}"@, "legacy"@);
    lemma_replace_absent(player, "${version_type}"@, "WMML 0.1.26"@);
}

/// Synthesizes the final game-argument string from the manifest, the
/// caller-supplied identity, and the game root directory.
pub fn build_game_arguments(
    root: &str,
    version_name: &str,
    player_name: &str,
    manifest: &VersionJson,
) -> (r: String)
    ensures
        r@ == game_arguments_spec(root@, version_name@, player_name@, *manifest),
{
    let mut assets_path = root.to_owned();
    assets_path.append("\\assets");
    let assets_index: &str = match &manifest.assets {
        Option::Some(s) => s.as_str(),
        Option::None => "",
    };
    proof {
        reveal_strlit("");
        assert(""@ =~= Seq::<char>::empty());
        assert(assets_index@ == assets_index_spec(*manifest));
    }

    let mut args = String::new();
    match &manifest.minecraft_arguments {
        Option::Some(legacy) => {
            args.append(legacy.as_str());
        },
        Option::None => {},
    }
    proof {
        assert(args@ =~= legacy_args_spec(*manifest));
    }
    match &manifest.arguments {
        Option::Some(arguments) => {
            let ghost base = args@;
            let mut i: usize = 0;
            while i < arguments.game.len()
                invariant
                    i <= arguments.game@.len(),
                    base == legacy_args_spec(*manifest),
                    args@ =~= base + plain_args_upto(arguments.game@, i as int),
                decreases arguments.game@.len() - i,
            {
                match &arguments.game[i] {
                    GameArgument::Plain(s) => {
                        args.append(" ");
                        args.append(s.as_str());
                    },
                    GameArgument::Structured => {},
                }
                proof {
                    assert(args@ =~= base + plain_args_upto(arguments.game@, i + 1));
                }
                i += 1;
            }
        },
        Option::None => {},
    }
    proof {
        assert(args@ =~= raw_args_spec(*manifest));
    }

    let s1 = replace(args.as_str(), "${auth_player_name}", player_name);
    let s2 = replace(s1.as_str(), "${version_name}", version_name);
    let s3 = replace(s2.as_str(), "${game_directory}", root);
    let s4 = replace(s3.as_str(), "${assets_root}", assets_path.as_str());
    let s5 = replace(s4.as_str(), "${assets_index_name}", assets_index);
    let s6 = replace(s5.as_str(), "${auth_uuid}", "00000000-0000-0000-0000-000000000000");
    let s7 = replace(s6.as_str(), "${auth_access_token}", "00000000000000000000000000000000");
    let s8 = replace(s7.as_str(), "${user_type}", "legacy");
    let s9 = replace(s8.as_str(), "${version_type}", "WMML 0.1.26");
    trim(s9.as_str())
}

} // verus!
