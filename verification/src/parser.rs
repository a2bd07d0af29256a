//! Rendering of declared game and jvm arguments: rule gating, `${...}`
//! placeholder substitution from the launch context, and classpath
//! construction in library declaration order.

use vstd::prelude::*;

use crate::errors::{
    CreateLibraryDownloadError, JavaArgumentsError, ManifestField, MavenIdentifierParseError,
};
use crate::launcher::Launcher;
use crate::text::{
    join_strings, replace_all, spec_int_string, spec_join, spec_replace, str_eq, i32_to_string,
};
use crate::util::{
    find_char_from, spec_find, spec_maven_parses, spec_maven_rel_path, MavenIdentifier,
};
use crate::version::{
    spec_classifier, spec_passes, Action, GameClass, GameRule, JvmClass, JvmRule, Library, Name,
    Value, Version,
};

verus! {

/// The platform facts jvm rules are evaluated against: the host operating
/// system, whether a windows host is at least windows 10, and whether the
/// cpu is x86. The caller supplies them; they are not probed here.
#[derive(Debug, Clone, Copy, PartialEq, Eq, Structural)]
pub struct Platform {
    pub os: Name,
    pub windows_ten_or_greater: bool,
    pub arch_x86: bool,
}

/// Evaluates the game arguments of a manifest.
pub struct GameArguments;

/// Evaluates the jvm arguments of a manifest.
pub struct JavaArguments;

/// The string a conditional entry's value renders to: one string as it
/// stands, several joined with single spaces.
pub open spec fn spec_value_string(v: Value) -> Seq<char> {
    match v {
        Value::String(s) => s@,
        Value::StringArray(a) => spec_join(a@.map_values(|s: String| s@), " "@),
    }
}

/// The position of the first `${` opener in `s` at or after `from`, or the
/// length of `s` when there is none.
pub open spec fn spec_find_opener(s: Seq<char>, from: int) -> int
    decreases s.len() - from,
{
    if from < 0 || from + 2 > s.len() {
        s.len() as int
    } else if s[from] == '$' && s[from + 1] == '{' {
        from
    } else {
        spec_find_opener(s, from + 1)
    }
}

/// The name inside the first complete `${name}` token of `s`, if `s` holds
/// one; an opener without a closing `}` forms no token.
pub open spec fn spec_first_token_name(s: Seq<char>) -> Option<Seq<char>> {
    let i = spec_find_opener(s, 0);
    if i < 0 || i + 2 > s.len() {
        None
    } else {
        let j = spec_find(s, '}', i + 2);
        if j < 0 || j >= s.len() {
            None
        } else {
            Some(s.subrange(i + 2, j))
        }
    }
}

/// The position of the first `${` opener at or after `from`, or the length
/// of `s` when there is none.
fn find_opener(s: &str, from: usize) -> (r: usize)
    requires
        from <= s@.len(),
    ensures
        r == spec_find_opener(s@, from as int),
        from <= r <= s@.len(),
        r < s@.len() ==> r + 2 <= s@.len(),
{
    let len = s.unicode_len();
    let mut i: usize = from;
    while len - i >= 2
        invariant
            from <= i <= len,
            len == s@.len(),
            spec_find_opener(s@, from as int) == spec_find_opener(s@, i as int),
        decreases len - i,
    {
        if s.get_char(i) == '$' && s.get_char(i + 1) == '{' {
            return i;
        }
        i = i + 1;
    }
    len
}

/// What a `${name}` placeholder contributes under the launch context.
pub enum PlaceholderValue {
    /// The substituted text.
    Value(Seq<char>),
    /// The client-id placeholder without a client id: the whole argument is
    /// omitted from the list, not rendered empty.
    Omit,
    /// The name is not recognized.
    Unknown,
}

/// The value a `${...}` placeholder renders to under the given launch
/// context. The client-id placeholder omits its argument entirely when no
/// client id was supplied; the resolution placeholders are recognized only
/// when a custom resolution was supplied; anything else is unrecognized.
pub open spec fn spec_dynamic_value(l: Launcher, name: Seq<char>) -> PlaceholderValue {
    if name == "auth_player_name"@ {
        PlaceholderValue::Value(l.authentication_details.username@)
    } else if name == "version_name"@ {
        PlaceholderValue::Value(l.version_name@)
    } else if name == "game_directory"@ {
        PlaceholderValue::Value(l.game_directory@)
    } else if name == "assets_root"@ {
        PlaceholderValue::Value(l.assets_directory@)
    } else if name == "assets_index_name"@ {
        PlaceholderValue::Value(l.version_name@)
    } else if name == "auth_uuid"@ {
        PlaceholderValue::Value(l.authentication_details.uuid@)
    } else if name == "auth_access_token"@ {
        PlaceholderValue::Value(l.authentication_details.access_token@)
    } else if name == "clientid"@ {
        match l.authentication_details.client_id {
            Some(c) => PlaceholderValue::Value(c@),
            None => PlaceholderValue::Omit,
        }
    } else if name == "auth_xuid"@ {
        PlaceholderValue::Value(l.authentication_details.xbox_uid@)
    } else if name == "user_type"@ {
        PlaceholderValue::Value("msa"@)
    } else if name == "version_type"@ {
        PlaceholderValue::Value(
            if l.is_snapshot {
                "snapshot"@
            } else {
                "release"@
            },
        )
    } else if name == "resolution_width"@ && l.custom_resolution is Some {
        PlaceholderValue::Value(spec_int_string(l.custom_resolution->0.width as int))
    } else if name == "resolution_height"@ && l.custom_resolution is Some {
        PlaceholderValue::Value(spec_int_string(l.custom_resolution->0.height as int))
    } else {
        PlaceholderValue::Unknown
    }
}

/// The outcome of rendering one literal game argument.
pub enum GameArgOutcome {
    /// The rendered string.
    Value(Seq<char>),
    /// The argument contributes nothing to the list — a full omission, not
    /// an empty token.
    Omitted,
    /// A placeholder with this name was not recognized.
    Unrecognised(Seq<char>),
}

/// `arg` with every complete `${name}` token substituted from the context,
/// left to right, substituted text not rescanned; a `${` without a closing
/// `}` forms no token and stays as it is. An absent client id omits the
/// whole argument; an unrecognized name is a hard error naming it.
pub open spec fn spec_substitute(l: Launcher, arg: Seq<char>) -> GameArgOutcome
    decreases arg.len(),
{
    let i = spec_find_opener(arg, 0);
    if i < 0 || i + 2 > arg.len() {
        GameArgOutcome::Value(arg)
    } else {
        let j = spec_find(arg, '}', i + 2);
        if j < 0 || j >= arg.len() {
            GameArgOutcome::Value(arg)
        } else {
            let name = arg.subrange(i + 2, j);
            match spec_dynamic_value(l, name) {
                PlaceholderValue::Value(v) => match spec_substitute(l, arg.skip(j + 1)) {
                    GameArgOutcome::Value(rest) => GameArgOutcome::Value(
                        arg.subrange(0, i) + v + rest,
                    ),
                    GameArgOutcome::Omitted => GameArgOutcome::Omitted,
                    GameArgOutcome::Unrecognised(n) => GameArgOutcome::Unrecognised(n),
                },
                PlaceholderValue::Omit => GameArgOutcome::Omitted,
                PlaceholderValue::Unknown => GameArgOutcome::Unrecognised(name),
            }
        }
    }
}

/// What a literal game argument renders to: the `--clientId` flag is kept
/// only when a client id was supplied and omitted entirely otherwise; every
/// other argument has its `${name}` tokens substituted.
pub open spec fn spec_game_string_argument(l: Launcher, arg: Seq<char>) -> GameArgOutcome {
    if arg == "--clientId"@ {
        if l.authentication_details.client_id is Some {
            GameArgOutcome::Value(arg)
        } else {
            GameArgOutcome::Omitted
        }
    } else {
        spec_substitute(l, arg)
    }
}

/// What one game rule decides: an allow rule tests the demo-user or
/// custom-resolution feature of the context; any other rule is unrecognized
/// and reported.
pub open spec fn spec_check_game_rule(rule: GameRule, l: Launcher) -> Result<
    bool,
    JavaArgumentsError,
> {
    match rule.action {
        Action::Allow => {
            if rule.features.is_demo_user is Some {
                Ok(l.authentication_details.is_demo_user)
            } else if rule.features.has_custom_resolution is Some {
                Ok(l.custom_resolution is Some)
            } else {
                Err(JavaArgumentsError::UnrecognisedAllowRule)
            }
        },
        Action::Disallow => Err(JavaArgumentsError::UnrecognisedDisallowRule),
    }
}

/// The verdict of a game-rule list, in order: the first error or the first
/// rejecting rule decides; an empty list admits.
pub open spec fn spec_game_rules_verdict(rules: Seq<GameRule>, l: Launcher) -> Result<
    bool,
    JavaArgumentsError,
>
    decreases rules.len(),
{
    if rules.len() == 0 {
        Ok(true)
    } else {
        match spec_check_game_rule(rules[0], l) {
            Err(e) => Err(e),
            Ok(false) => Ok(false),
            Ok(true) => spec_game_rules_verdict(rules.skip(1), l),
        }
    }
}

/// The outcome of rendering one conditional argument entry.
pub enum ClassArgOutcome {
    /// The entry's rules reject the context: it contributes nothing.
    Omitted,
    /// The rendered string.
    Value(Seq<char>),
    /// A placeholder with this name was not recognized.
    Unrecognised(Seq<char>),
    /// Rule evaluation or rendering failed.
    Fail(JavaArgumentsError),
}

/// What one conditional game argument renders to: its rules decide whether
/// it applies at all; when they admit, its value is rendered like a literal
/// argument.
pub open spec fn spec_game_class_argument(l: Launcher, c: GameClass) -> ClassArgOutcome {
    match spec_game_rules_verdict(c.rules@, l) {
        Err(e) => ClassArgOutcome::Fail(e),
        Ok(false) => ClassArgOutcome::Omitted,
        Ok(true) => match spec_game_string_argument(l, spec_value_string(c.value)) {
            GameArgOutcome::Value(v) => ClassArgOutcome::Value(v),
            GameArgOutcome::Omitted => ClassArgOutcome::Omitted,
            GameArgOutcome::Unrecognised(n) => ClassArgOutcome::Unrecognised(n),
        },
    }
}

impl GameArguments {
    /// Renders one conditional game argument: omitted whole when its rules
    /// reject the context, else its value with placeholders substituted.
    pub fn parse_class_argument(launcher_arguments: &Launcher, argument: &GameClass) -> (r: Result<
        Option<String>,
        JavaArgumentsError,
    >)
        ensures
            match spec_game_class_argument(*launcher_arguments, *argument) {
                ClassArgOutcome::Omitted => r matches Ok(o) && o is None,
                ClassArgOutcome::Value(v) => r matches Ok(o) && (o matches Some(s) && s@ == v),
                ClassArgOutcome::Unrecognised(n) => r matches Err(
                    JavaArgumentsError::UnrecognisedGameArgument(m),
                ) && m@ == n,
                ClassArgOutcome::Fail(e) => r == Err::<Option<String>, JavaArgumentsError>(e),
            },
    {
        let ghost rules = argument.rules@;
        let mut i: usize = 0;
        proof {
            assert(rules.skip(0) =~= rules);
        }
        while i < argument.rules.len()
            invariant
                i <= rules.len(),
                rules == argument.rules@,
                spec_game_rules_verdict(rules, *launcher_arguments) == spec_game_rules_verdict(
                    rules.skip(i as int),
                    *launcher_arguments,
                ),
            decreases rules.len() - i,
        {
            proof {
                assert(rules.skip(i as int)[0] == rules[i as int]);
                assert(rules.skip(i as int).skip(1) =~= rules.skip(i + 1));
            }
            match Self::check_rule(&argument.rules[i], launcher_arguments) {
                Err(e) => {
                    return Err(e);
                },
                Ok(false) => {
                    return Ok(None);
                },
                Ok(true) => (),
            }
            i = i + 1;
        }
        proof {
            assert(rules.skip(rules.len() as int) =~= Seq::<GameRule>::empty());
        }
        let value_str = match &argument.value {
            Value::String(s) => s.clone(),
            Value::StringArray(arr) => join_strings(arr, " "),
        };
        Self::parse_string_argument(launcher_arguments, value_str)
    }

    /// Renders one literal game argument: every `${name}` token in it is
    /// substituted from the context, an unrecognized name is a hard error
    /// rather than passed through, and an argument the context omits (the
    /// client-id forms without a client id) contributes nothing at all.
    pub fn parse_string_argument(launcher_arguments: &Launcher, argument: String) -> (r: Result<
        Option<String>,
        JavaArgumentsError,
    >)
        ensures
            match spec_game_string_argument(*launcher_arguments, argument@) {
                GameArgOutcome::Value(v) => r matches Ok(o) && (o matches Some(s) && s@ == v),
                GameArgOutcome::Omitted => r matches Ok(o) && o is None,
                GameArgOutcome::Unrecognised(n) => r matches Err(
                    JavaArgumentsError::UnrecognisedGameArgument(m),
                ) && m@ == n,
            },
    {
        if str_eq(argument.as_str(), "--clientId") {
            if launcher_arguments.authentication_details.client_id.is_some() {
                Ok(Some(argument))
            } else {
                Ok(None)
            }
        } else {
            substitute(launcher_arguments, argument.as_str())
        }
    }

    /// Substitutes one recognized placeholder name from the context: `None`
    /// when the argument holding it is to be omitted (the client-id
    /// placeholder without a client id); an unrecognized name is a hard
    /// error naming the placeholder.
    pub fn match_dynamic_argument(launcher_arguments: &Launcher, dynamic_argument: &str) -> (r:
        Result<Option<String>, JavaArgumentsError>)
        ensures
            match spec_dynamic_value(*launcher_arguments, dynamic_argument@) {
                PlaceholderValue::Value(v) => r matches Ok(o) && (o matches Some(s) && s@ == v),
                PlaceholderValue::Omit => r matches Ok(o) && o is None,
                PlaceholderValue::Unknown => (r matches Err(
                    JavaArgumentsError::UnrecognisedGameArgument(m),
                ) && m@ == dynamic_argument@),
            },
    {
        let auth = &launcher_arguments.authentication_details;
        if str_eq(dynamic_argument, "auth_player_name") {
            Ok(Some(auth.username.clone()))
        } else if str_eq(dynamic_argument, "version_name") {
            Ok(Some(launcher_arguments.version_name.clone()))
        } else if str_eq(dynamic_argument, "game_directory") {
            Ok(Some(launcher_arguments.game_directory.clone()))
        } else if str_eq(dynamic_argument, "assets_root") {
            Ok(Some(launcher_arguments.assets_directory.clone()))
        } else if str_eq(dynamic_argument, "assets_index_name") {
            Ok(Some(launcher_arguments.version_name.clone()))
        } else if str_eq(dynamic_argument, "auth_uuid") {
            Ok(Some(auth.uuid.clone()))
        } else if str_eq(dynamic_argument, "auth_access_token") {
            Ok(Some(auth.access_token.clone()))
        } else if str_eq(dynamic_argument, "clientid") {
            match &auth.client_id {
                Some(c) => Ok(Some(c.clone())),
                None => Ok(None),
            }
        } else if str_eq(dynamic_argument, "auth_xuid") {
            Ok(Some(auth.xbox_uid.clone()))
        } else if str_eq(dynamic_argument, "user_type") {
            Ok(Some("msa".to_owned()))
        } else if str_eq(dynamic_argument, "version_type") {
            if launcher_arguments.is_snapshot {
                Ok(Some("snapshot".to_owned()))
            } else {
                Ok(Some("release".to_owned()))
            }
        } else if str_eq(dynamic_argument, "resolution_width") {
            match &launcher_arguments.custom_resolution {
                Some(res) => Ok(Some(i32_to_string(res.width))),
                None => Err(
                    JavaArgumentsError::UnrecognisedGameArgument(dynamic_argument.to_owned()),
                ),
            }
        } else if str_eq(dynamic_argument, "resolution_height") {
            match &launcher_arguments.custom_resolution {
                Some(res) => Ok(Some(i32_to_string(res.height))),
                None => Err(
                    JavaArgumentsError::UnrecognisedGameArgument(dynamic_argument.to_owned()),
                ),
            }
        } else {
            Err(JavaArgumentsError::UnrecognisedGameArgument(dynamic_argument.to_owned()))
        }
    }

    /// Decides one game rule against the launch context: an allow rule tests
    /// the feature it names; anything else is unrecognized and reported.
    pub fn check_rule(rule: &GameRule, launcher_arguments: &Launcher) -> (r: Result<
        bool,
        JavaArgumentsError,
    >)
        ensures
            r == spec_check_game_rule(*rule, *launcher_arguments),
    {
        match rule.action {
            Action::Allow => {
                if rule.features.is_demo_user.is_some() {
                    Ok(launcher_arguments.authentication_details.is_demo_user)
                } else if rule.features.has_custom_resolution.is_some() {
                    Ok(launcher_arguments.custom_resolution.is_some())
                } else {
                    Err(JavaArgumentsError::UnrecognisedAllowRule)
                }
            },
            Action::Disallow => Err(JavaArgumentsError::UnrecognisedDisallowRule),
        }
    }
}

/// Substitutes every complete `${name}` token in `arg` from the context,
/// left to right; `Ok(None)` when the whole argument is to be omitted.
fn substitute(launcher_arguments: &Launcher, arg: &str) -> (r: Result<
    Option<String>,
    JavaArgumentsError,
>)
    ensures
        match spec_substitute(*launcher_arguments, arg@) {
            GameArgOutcome::Value(v) => r matches Ok(o) && (o matches Some(s) && s@ == v),
            GameArgOutcome::Omitted => r matches Ok(o) && o is None,
            GameArgOutcome::Unrecognised(n) => r matches Err(
                JavaArgumentsError::UnrecognisedGameArgument(m),
            ) && m@ == n,
        },
    decreases arg@.len(),
{
    let len = arg.unicode_len();
    let opener = find_opener(arg, 0);
    if opener == len {
        return Ok(Some(arg.to_owned()));
    }
    let close = find_char_from(arg, '}', opener + 2);
    if close == len {
        return Ok(Some(arg.to_owned()));
    }
    let name = arg.substring_char(opener + 2, close);
    match GameArguments::match_dynamic_argument(launcher_arguments, name) {
        Err(e) => Err(e),
        Ok(None) => Ok(None),
        Ok(Some(v)) => {
            let rest = arg.substring_char(close + 1, len);
            proof {
                assert(rest@ =~= arg@.skip(close + 1));
            }
            match substitute(launcher_arguments, rest) {
                Err(e) => Err(e),
                Ok(None) => Ok(None),
                Ok(Some(tail)) => {
                    let mut out = arg.substring_char(0, opener).to_owned();
                    out.append(v.as_str());
                    out.append(tail.as_str());
                    Ok(Some(out))
                },
            }
        },
    }
}

/// What one jvm rule decides against the platform: an allow rule may test
/// the os name, for windows an os version pattern, and the cpu architecture;
/// unrecognized names, patterns and architectures are reported; disallow
/// rules are not supported.
pub open spec fn spec_check_jvm_rule(rule: JvmRule, p: Platform) -> Result<
    bool,
    JavaArgumentsError,
> {
    match rule.action {
        Action::Disallow => Err(JavaArgumentsError::NoDissalows),
        Action::Allow => match rule.os.name {
            None => Ok(false),
            Some(n) => {
                if n@ == "osx"@ {
                    spec_jvm_arch_step(p.os == Name::Osx, rule, p)
                } else if n@ == "windows"@ {
                    if p.os == Name::Windows {
                        match rule.os.version {
                            Some(v) => if v@ == "^10\\."@ {
                                spec_jvm_arch_step(p.windows_ten_or_greater, rule, p)
                            } else {
                                Err(JavaArgumentsError::UnrecognisedOsVersion(v))
                            },
                            None => spec_jvm_arch_step(true, rule, p),
                        }
                    } else {
                        spec_jvm_arch_step(false, rule, p)
                    }
                } else if n@ == "linux"@ {
                    spec_jvm_arch_step(p.os == Name::Linux, rule, p)
                } else {
                    Err(JavaArgumentsError::UnrecognisedOs)
                }
            },
        },
    }
}

/// The architecture test of a jvm rule, reached only when the os test
/// allowed: a rejected os short-circuits to `false` before the architecture
/// is looked at.
pub open spec fn spec_jvm_arch_step(name_allow: bool, rule: JvmRule, p: Platform) -> Result<
    bool,
    JavaArgumentsError,
> {
    if !name_allow {
        Ok(false)
    } else {
        match rule.os.arch {
            None => Ok(true),
            Some(a) => if a@ == "x86"@ {
                Ok(p.arch_x86)
            } else {
                Err(JavaArgumentsError::UnrecognisedOsArch)
            },
        }
    }
}

/// The verdict of a jvm-rule list, in order: the first error or the first
/// rejecting rule decides; an empty list admits.
pub open spec fn spec_jvm_rules_verdict(rules: Seq<JvmRule>, p: Platform) -> Result<
    bool,
    JavaArgumentsError,
>
    decreases rules.len(),
{
    if rules.len() == 0 {
        Ok(true)
    } else {
        match spec_check_jvm_rule(rules[0], p) {
            Err(e) => Err(e),
            Ok(false) => Ok(false),
            Ok(true) => spec_jvm_rules_verdict(rules.skip(1), p),
        }
    }
}

/// The outcome of building a classpath.
pub enum CpResolution {
    /// The entries, in library declaration order.
    Paths(Seq<Seq<char>>),
    /// Construction failed.
    Fail(JavaArgumentsError),
}

/// The classpath entries one library contributes: none when its rules reject
/// the platform, else the local path of its primary artifact — from its
/// descriptor, or from its maven coordinate when it has none — and of at
/// most one platform-matching native classifier.
pub open spec fn spec_classpath_lib(lib: Library, os: Name, libdir: Seq<char>) -> CpResolution {
    if !spec_passes(lib, os) {
        CpResolution::Paths(Seq::empty())
    } else {
        match lib.downloads {
            Some(d) => {
                if d.artifact.path is None {
                    CpResolution::Fail(JavaArgumentsError::NoDownloadArtifactPath)
                } else {
                    let first = libdir + "/"@ + d.artifact.path->0@;
                    match d.classifiers {
                        Some(cl) => match spec_classifier(cl, os) {
                            Some(mc) => if mc.path is None {
                                CpResolution::Fail(JavaArgumentsError::NoLibsPath)
                            } else {
                                CpResolution::Paths(seq![first, libdir + "/"@ + mc.path->0@])
                            },
                            None => CpResolution::Paths(seq![first]),
                        },
                        None => CpResolution::Paths(seq![first]),
                    }
                }
            },
            None => match lib.url {
                Some(_) => if spec_maven_parses(lib.name@) {
                    CpResolution::Paths(seq![libdir + "/"@ + spec_maven_rel_path(lib.name@)])
                } else {
                    CpResolution::Fail(
                        JavaArgumentsError::LibraryDownloadError(
                            CreateLibraryDownloadError::MavenParseError(
                                MavenIdentifierParseError::NotEnoughArgs,
                            ),
                        ),
                    )
                },
                None => CpResolution::Fail(JavaArgumentsError::NoLibraryUrl),
            },
        }
    }
}

/// The classpath entries of a whole library list, in order, or the first
/// error.
pub open spec fn spec_classpath_list(libs: Seq<Library>, os: Name, libdir: Seq<char>) -> CpResolution
    decreases libs.len(),
{
    if libs.len() == 0 {
        CpResolution::Paths(Seq::empty())
    } else {
        match spec_classpath_lib(libs[0], os, libdir) {
            CpResolution::Fail(e) => CpResolution::Fail(e),
            CpResolution::Paths(ps) => match spec_classpath_list(libs.skip(1), os, libdir) {
                CpResolution::Fail(e) => CpResolution::Fail(e),
                CpResolution::Paths(rest) => CpResolution::Paths(ps + rest),
            },
        }
    }
}

/// The full classpath of a manifest under a launch context: the entries of
/// every admitted library in declaration order, then the client jar.
pub open spec fn spec_full_classpath(v: Version, l: Launcher, os: Name) -> CpResolution {
    match v.libraries {
        None => CpResolution::Fail(
            JavaArgumentsError::IncompleteManifest(ManifestField::Libraries),
        ),
        Some(libs) => match spec_classpath_list(libs@, os, l.libraries_directory@) {
            CpResolution::Fail(e) => CpResolution::Fail(e),
            CpResolution::Paths(ps) => CpResolution::Paths(ps.push(l.jar_path@)),
        },
    }
}

/// The host's path-list separator.
pub open spec fn spec_sep(os: Name) -> Seq<char> {
    if os == Name::Windows {
        ";"@
    } else {
        ":"@
    }
}

/// The outcome of rendering one literal jvm argument.
pub enum StrOutcome {
    /// The rendered string.
    Value(Seq<char>),
    /// A `${...}` token with this name survived the substitutions: it is not
    /// recognized among the jvm placeholders.
    Unrecognised(Seq<char>),
    /// Rendering failed.
    Fail(JavaArgumentsError),
}

/// The four jvm substitutions: the natives directory, the launcher branding,
/// and the joined classpath, applied to `arg` left to right.
pub open spec fn spec_jvm_rendered(l: Launcher, arg: Seq<char>, ps: Seq<Seq<char>>, os: Name) -> Seq<char> {
    spec_replace(
        spec_replace(
            spec_replace(
                spec_replace(arg, "${natives_directory}"@, l.libraries_directory@),
                "${launcher_name}"@,
                l.client_branding@,
            ),
            "${launcher_version}"@,
            l.launcher_name@,
        ),
        "${classpath}"@,
        spec_join(ps, spec_sep(os)),
    )
}

/// What a literal jvm argument renders to: the natives directory, the
/// launcher branding and the joined classpath substituted into it, left to
/// right; a `${...}` token that survives the substitutions is a hard error
/// naming the placeholder, never emitted verbatim.
pub open spec fn spec_jvm_string_argument(l: Launcher, v: Version, arg: Seq<char>, os: Name) -> StrOutcome {
    match spec_full_classpath(v, l, os) {
        CpResolution::Fail(e) => StrOutcome::Fail(e),
        CpResolution::Paths(ps) => {
            let rendered = spec_jvm_rendered(l, arg, ps, os);
            match spec_first_token_name(rendered) {
                Some(name) => StrOutcome::Unrecognised(name),
                None => StrOutcome::Value(rendered),
            }
        },
    }
}

/// What one conditional jvm argument renders to: its rules decide whether it
/// applies, then its value is rendered like a literal jvm argument.
pub open spec fn spec_jvm_class_argument(l: Launcher, v: Version, c: JvmClass, p: Platform) -> ClassArgOutcome {
    match spec_jvm_rules_verdict(c.rules@, p) {
        Err(e) => ClassArgOutcome::Fail(e),
        Ok(false) => ClassArgOutcome::Omitted,
        Ok(true) => match spec_jvm_string_argument(l, v, spec_value_string(c.value), p.os) {
            StrOutcome::Value(val) => ClassArgOutcome::Value(val),
            StrOutcome::Unrecognised(n) => ClassArgOutcome::Unrecognised(n),
            StrOutcome::Fail(e) => ClassArgOutcome::Fail(e),
        },
    }
}

impl JavaArguments {
    /// Renders one literal jvm argument: substitutes the natives directory,
    /// the launcher branding, and the classpath joined with the platform's
    /// path-list separator; a `${...}` token that survives the substitutions
    /// is a hard error naming the placeholder.
    pub fn parse_string_argument(
        launcher_arguments: &Launcher,
        version_manifest: &Version,
        argument: String,
        os: Name,
    ) -> (r: Result<String, JavaArgumentsError>)
        ensures
            match spec_jvm_string_argument(*launcher_arguments, *version_manifest, argument@, os) {
                StrOutcome::Value(v) => r matches Ok(s) && s@ == v,
                StrOutcome::Unrecognised(n) => r matches Err(
                    JavaArgumentsError::UnrecognisedGameArgument(m),
                ) && m@ == n,
                StrOutcome::Fail(e) => r == Err::<String, JavaArgumentsError>(e),
            },
    {
        let classpath = match Self::create_classpath(version_manifest, launcher_arguments, os) {
            Ok(c) => c,
            Err(e) => {
                return Err(e);
            },
        };
        let sep: &str = if os == Name::Windows {
            ";"
        } else {
            ":"
        };
        let joined = join_strings(&classpath, sep);
        proof {
            match spec_full_classpath(*version_manifest, *launcher_arguments, os) {
                CpResolution::Paths(ps) => {
                    assert(classpath@.map_values(|s: String| s@) =~= ps);
                },
                CpResolution::Fail(_) => (),
            }
        }
        let s1 = replace_all(
            argument.as_str(),
            "${natives_directory}",
            launcher_arguments.libraries_directory.as_str(),
        );
        let s2 = replace_all(
            s1.as_str(),
            "${launcher_name}",
            launcher_arguments.client_branding.as_str(),
        );
        let s3 = replace_all(
            s2.as_str(),
            "${launcher_version}",
            launcher_arguments.launcher_name.as_str(),
        );
        let s4 = replace_all(s3.as_str(), "${classpath}", joined.as_str());
        let len4 = s4.as_str().unicode_len();
        let opener = find_opener(s4.as_str(), 0);
        if opener < len4 {
            let close = find_char_from(s4.as_str(), '}', opener + 2);
            if close < len4 {
                let name = s4.as_str().substring_char(opener + 2, close);
                return Err(JavaArgumentsError::UnrecognisedGameArgument(name.to_owned()));
            }
        }
        Ok(s4)
    }

    /// Renders one conditional jvm argument: omitted whole when its rules
    /// reject the platform, else its value rendered like a literal jvm
    /// argument.
    pub fn parse_class_argument(
        launcher_arguments: &Launcher,
        version_manifest: &Version,
        argument: &JvmClass,
        platform: &Platform,
    ) -> (r: Result<Option<String>, JavaArgumentsError>)
        ensures
            match spec_jvm_class_argument(
                *launcher_arguments,
                *version_manifest,
                *argument,
                *platform,
            ) {
                ClassArgOutcome::Omitted => r matches Ok(o) && o is None,
                ClassArgOutcome::Value(v) => r matches Ok(o) && (o matches Some(s) && s@ == v),
                ClassArgOutcome::Unrecognised(n) => r matches Err(
                    JavaArgumentsError::UnrecognisedGameArgument(m),
                ) && m@ == n,
                ClassArgOutcome::Fail(e) => r == Err::<Option<String>, JavaArgumentsError>(e),
            },
    {
        let ghost rules = argument.rules@;
        let mut i: usize = 0;
        proof {
            assert(rules.skip(0) =~= rules);
        }
        while i < argument.rules.len()
            invariant
                i <= rules.len(),
                rules == argument.rules@,
                spec_jvm_rules_verdict(rules, *platform) == spec_jvm_rules_verdict(
                    rules.skip(i as int),
                    *platform,
                ),
            decreases rules.len() - i,
        {
            proof {
                assert(rules.skip(i as int)[0] == rules[i as int]);
                assert(rules.skip(i as int).skip(1) =~= rules.skip(i + 1));
            }
            match Self::check_rule(&argument.rules[i], platform) {
                Err(e) => {
                    return Err(e);
                },
                Ok(false) => {
                    return Ok(None);
                },
                Ok(true) => (),
            }
            i = i + 1;
        }
        proof {
            assert(rules.skip(rules.len() as int) =~= Seq::<JvmRule>::empty());
        }
        let value_str = match &argument.value {
            Value::String(s) => s.clone(),
            Value::StringArray(arr) => join_strings(arr, " "),
        };
        match Self::parse_string_argument(
            launcher_arguments,
            version_manifest,
            value_str,
            platform.os,
        ) {
            Ok(s) => Ok(Some(s)),
            Err(e) => Err(e),
        }
    }

    /// Decides one jvm rule against the platform: the os name, for windows
    /// the os version pattern, then the cpu architecture; a rule without an
    /// os name allows nothing.
    pub fn check_rule(rule: &JvmRule, platform: &Platform) -> (r: Result<bool, JavaArgumentsError>)
        ensures
            r == spec_check_jvm_rule(*rule, *platform),
    {
        match rule.action {
            Action::Disallow => Err(JavaArgumentsError::NoDissalows),
            Action::Allow => {
                let name_allow: bool = match &rule.os.name {
                    None => {
                        return Ok(false);
                    },
                    Some(n) => {
                        if str_eq(n.as_str(), "osx") {
                            platform.os == Name::Osx
                        } else if str_eq(n.as_str(), "windows") {
                            if platform.os == Name::Windows {
                                match &rule.os.version {
                                    Some(v) => {
                                        if str_eq(v.as_str(), "^10\\.") {
                                            platform.windows_ten_or_greater
                                        } else {
                                            return Err(
                                                JavaArgumentsError::UnrecognisedOsVersion(
                                                    v.clone(),
                                                ),
                                            );
                                        }
                                    },
                                    None => true,
                                }
                            } else {
                                false
                            }
                        } else if str_eq(n.as_str(), "linux") {
                            platform.os == Name::Linux
                        } else {
                            return Err(JavaArgumentsError::UnrecognisedOs);
                        }
                    },
                };
                if !name_allow {
                    return Ok(false);
                }
                match &rule.os.arch {
                    None => Ok(true),
                    Some(a) => {
                        if str_eq(a.as_str(), "x86") {
                            Ok(platform.arch_x86)
                        } else {
                            Err(JavaArgumentsError::UnrecognisedOsArch)
                        }
                    },
                }
            },
        }
    }

    /// Builds the classpath: for each library admitted by its rules, in
    /// declaration order, the local path of its primary artifact and of at
    /// most one platform-matching native classifier, and finally the client
    /// jar.
    pub fn create_classpath(
        version_manifest: &Version,
        launcher_arguments: &Launcher,
        os: Name,
    ) -> (r: Result<Vec<String>, JavaArgumentsError>)
        ensures
            match spec_full_classpath(*version_manifest, *launcher_arguments, os) {
                CpResolution::Paths(ps) => r matches Ok(out) && out@.len() == ps.len() && (forall|
                    i: int,
                |
                    0 <= i < ps.len() ==> out@[i]@ == ps[i]),
                CpResolution::Fail(e) => r == Err::<Vec<String>, JavaArgumentsError>(e),
            },
    {
        let libs = match &version_manifest.libraries {
            Some(libs) => libs,
            None => {
                return Err(JavaArgumentsError::IncompleteManifest(ManifestField::Libraries));
            },
        };
        let libdir = launcher_arguments.libraries_directory.as_str();
        let ghost all = libs@;
        let ghost dir = libdir@;
        let mut cp: Vec<String> = Vec::new();
        let mut i: usize = 0;
        proof {
            assert(all.skip(0) =~= all);
        }
        while i < libs.len()
            invariant
                i <= all.len(),
                all == libs@,
                dir == libdir@,
                dir == launcher_arguments.libraries_directory@,
                version_manifest.libraries matches Some(l) && l@ == all,
                match spec_classpath_list(all.skip(i as int), os, dir) {
                    CpResolution::Fail(e) => spec_classpath_list(all, os, dir)
                        == CpResolution::Fail(e),
                    CpResolution::Paths(rest) => spec_classpath_list(all, os, dir)
                        == CpResolution::Paths(cp@.map_values(|s: String| s@) + rest),
                },
            decreases all.len() - i,
        {
            let ghost entries_before = cp@.map_values(|s: String| s@);
            proof {
                let tail = all.skip(i as int);
                assert(tail[0] == all[i as int]);
                assert(tail.skip(1) =~= all.skip(i + 1));
                assert(spec_classpath_list(tail, os, dir) == (match spec_classpath_lib(
                    tail[0],
                    os,
                    dir,
                ) {
                    CpResolution::Fail(e) => CpResolution::Fail(e),
                    CpResolution::Paths(ps) => match spec_classpath_list(tail.skip(1), os, dir) {
                        CpResolution::Fail(e2) => CpResolution::Fail(e2),
                        CpResolution::Paths(rest) => CpResolution::Paths(ps + rest),
                    },
                }));
            }
            let lib = &libs[i];
            let passes = match &lib.rules {
                Some(rules) => Version::check_library_rules(rules, os),
                None => true,
            };
            if passes {
                match &lib.downloads {
                    Some(d) => {
                        let sub = match &d.artifact.path {
                            None => {
                                return Err(JavaArgumentsError::NoDownloadArtifactPath);
                            },
                            Some(p) => p.as_str(),
                        };
                        let mut entry = libdir.to_owned();
                        entry.append("/");
                        entry.append(sub);
                        cp.push(entry);
                        match &d.classifiers {
                            Some(cl) => {
                                let selected = crate::version::select_classifier(cl, os);
                                match selected {
                                    Some(mc) => {
                                        let nsub = match &mc.path {
                                            None => {
                                                return Err(JavaArgumentsError::NoLibsPath);
                                            },
                                            Some(p) => p.as_str(),
                                        };
                                        let mut nentry = libdir.to_owned();
                                        nentry.append("/");
                                        nentry.append(nsub);
                                        cp.push(nentry);
                                    },
                                    None => (),
                                }
                            },
                            None => (),
                        }
                    },
                    None => {
                        match &lib.url {
                            None => {
                                return Err(JavaArgumentsError::NoLibraryUrl);
                            },
                            Some(_) => (),
                        }
                        let identifier = match MavenIdentifier::from_str(lib.name.as_str()) {
                            Ok(m) => m,
                            Err(e) => {
                                return Err(
                                    JavaArgumentsError::LibraryDownloadError(
                                        CreateLibraryDownloadError::MavenParseError(e),
                                    ),
                                );
                            },
                        };
                        let rel = identifier.rel_path();
                        let mut entry = libdir.to_owned();
                        entry.append("/");
                        entry.append(rel.as_str());
                        cp.push(entry);
                    },
                }
            }
            proof {
                let contributed = match spec_classpath_lib(all[i as int], os, dir) {
                    CpResolution::Paths(ps) => ps,
                    CpResolution::Fail(_) => Seq::empty(),
                };
                assert(cp@.map_values(|s: String| s@) =~= entries_before + contributed);
                match spec_classpath_list(all.skip(i + 1), os, dir) {
                    CpResolution::Paths(rest2) => {
                        assert(entries_before + (contributed + rest2) =~= (entries_before
                            + contributed) + rest2);
                    },
                    CpResolution::Fail(_) => (),
                }
            }
            i = i + 1;
        }
        proof {
            assert(all.skip(all.len() as int) =~= Seq::<Library>::empty());
            assert(cp@.map_values(|s: String| s@) + Seq::<Seq<char>>::empty() =~= cp@.map_values(
                |s: String| s@,
            ));
        }
        let ghost lib_entries = cp@.map_values(|s: String| s@);
        cp.push(launcher_arguments.jar_path.clone());
        proof {
            assert(cp@.map_values(|s: String| s@) =~= lib_entries.push(
                launcher_arguments.jar_path@,
            ));
        }
        Ok(cp)
    }
}

} // verus!
