//! The launch context — who is playing, where everything sits on disk, how
//! the process is branded — and the assembly of the full game and jvm
//! argument lists from a manifest.

use vstd::prelude::*;

use crate::errors::{JavaArgumentsError, LauncherError};
use crate::parser::{
    spec_game_class_argument, spec_game_string_argument, spec_jvm_class_argument,
    spec_jvm_string_argument, ClassArgOutcome, GameArgOutcome, GameArguments, JavaArguments,
    Platform, StrOutcome,
};
use crate::version::{GameElement, JvmElement, Version};

verus! {

/// The account launching the game. The tokens are opaque strings supplied by
/// the caller.
#[derive(Debug, Clone, PartialEq, Eq)]
pub struct AuthenticationDetails {
    pub username: String,
    pub uuid: String,
    pub access_token: String,
    pub xbox_uid: String,
    pub client_id: Option<String>,
    pub is_demo_user: bool,
}

/// A window size to use instead of the default.
#[derive(Debug, Clone, Copy, PartialEq, Eq, Structural)]
pub struct CustomResolution {
    pub width: i32,
    pub height: i32,
}

/// The minimum and maximum heap sizes handed to the runtime.
#[derive(Debug, Clone, PartialEq, Eq)]
pub struct RamSize {
    pub min: String,
    pub max: String,
}

/// Everything the argument evaluator substitutes into a manifest's argument
/// templates. Directory fields hold already-resolved absolute paths: turning
/// a path as configured into its absolute form is the caller's concern.
#[derive(Debug, Clone, PartialEq, Eq)]
pub struct Launcher {
    /// the authentication details (username, uuid, access token, xbox uid, etc)
    pub authentication_details: AuthenticationDetails,
    /// a custom resolution to use instead of the default
    pub custom_resolution: Option<CustomResolution>,
    /// the game jar file path
    pub jar_path: String,
    /// the root game folder
    pub game_directory: String,
    /// the root of the assets folder
    pub assets_directory: String,
    /// the root of the libraries folder
    pub libraries_directory: String,
    /// the path to the version manifest on disk
    pub version_manifest_path: String,
    /// is this version a snapshot
    pub is_snapshot: bool,
    /// the version name
    pub version_name: String,
    /// the client brand
    pub client_branding: String,
    /// the min/max amount of ram to use
    pub ram_size: RamSize,
    /// the path to the java executable
    pub java_path: String,
    /// the launcher name
    pub launcher_name: String,
}

/// The outcome of assembling one whole argument list.
pub enum ArgsOutcome {
    /// Every entry rendered; rejected conditional entries are omitted whole.
    Args(Seq<Seq<char>>),
    /// A `${...}` placeholder with this name was not recognized.
    Unrecognised(Seq<char>),
    /// Rendering failed for another reason.
    Fail(LauncherError),
}

/// The rendered game arguments of `elems` prefixed by `done`, or the first
/// failure.
pub open spec fn spec_game_args_list(l: Launcher, elems: Seq<GameElement>, done: Seq<Seq<char>>) -> ArgsOutcome
    decreases elems.len(),
{
    if elems.len() == 0 {
        ArgsOutcome::Args(done)
    } else {
        match elems[0] {
            GameElement::String(s) => match spec_game_string_argument(l, s@) {
                GameArgOutcome::Value(v) => spec_game_args_list(l, elems.skip(1), done.push(v)),
                GameArgOutcome::Omitted => spec_game_args_list(l, elems.skip(1), done),
                GameArgOutcome::Unrecognised(n) => ArgsOutcome::Unrecognised(n),
            },
            GameElement::GameClass(c) => match spec_game_class_argument(l, c) {
                ClassArgOutcome::Omitted => spec_game_args_list(l, elems.skip(1), done),
                ClassArgOutcome::Value(v) => spec_game_args_list(l, elems.skip(1), done.push(v)),
                ClassArgOutcome::Unrecognised(n) => ArgsOutcome::Unrecognised(n),
                ClassArgOutcome::Fail(e) => ArgsOutcome::Fail(
                    LauncherError::JavaArgumentParseError(e),
                ),
            },
        }
    }
}

/// The rendered game-argument list of a manifest: a missing argument section
/// fails, every literal entry is substituted, every conditional entry is
/// rule-gated and substituted or omitted whole.
pub open spec fn spec_game_arguments(l: Launcher, v: Version) -> ArgsOutcome {
    match v.arguments {
        None => ArgsOutcome::Fail(LauncherError::NoArgs),
        Some(args) => spec_game_args_list(l, args.game@, Seq::empty()),
    }
}

/// The rendered jvm arguments of `elems` prefixed by `done`, or the first
/// failure.
pub open spec fn spec_jvm_args_list(
    l: Launcher,
    v: Version,
    p: Platform,
    elems: Seq<JvmElement>,
    done: Seq<Seq<char>>,
) -> ArgsOutcome
    decreases elems.len(),
{
    if elems.len() == 0 {
        ArgsOutcome::Args(done)
    } else {
        match elems[0] {
            JvmElement::String(s) => match spec_jvm_string_argument(l, v, s@, p.os) {
                StrOutcome::Value(val) => spec_jvm_args_list(l, v, p, elems.skip(1), done.push(val)),
                StrOutcome::Unrecognised(n) => ArgsOutcome::Unrecognised(n),
                StrOutcome::Fail(e) => ArgsOutcome::Fail(LauncherError::JavaArgumentParseError(e)),
            },
            JvmElement::JvmClass(c) => match spec_jvm_class_argument(l, v, c, p) {
                ClassArgOutcome::Omitted => spec_jvm_args_list(l, v, p, elems.skip(1), done),
                ClassArgOutcome::Value(val) => spec_jvm_args_list(
                    l,
                    v,
                    p,
                    elems.skip(1),
                    done.push(val),
                ),
                ClassArgOutcome::Unrecognised(n) => ArgsOutcome::Unrecognised(n),
                ClassArgOutcome::Fail(e) => ArgsOutcome::Fail(
                    LauncherError::JavaArgumentParseError(e),
                ),
            },
        }
    }
}

/// The rendered jvm-argument list of a manifest.
pub open spec fn spec_jvm_arguments(l: Launcher, v: Version, p: Platform) -> ArgsOutcome {
    match v.arguments {
        None => ArgsOutcome::Fail(LauncherError::NoArgs),
        Some(args) => spec_jvm_args_list(l, v, p, args.jvm@, Seq::empty()),
    }
}

impl Launcher {
    /// Renders the manifest's declared game arguments in order: literal
    /// entries are substituted, conditional entries whose rules reject the
    /// context contribute nothing.
    pub fn parse_game_arguments(&self, version_manifest: &Version) -> (r: Result<
        Vec<String>,
        LauncherError,
    >)
        ensures
            match spec_game_arguments(*self, *version_manifest) {
                ArgsOutcome::Args(vals) => r matches Ok(out) && out@.len() == vals.len() && (forall|
                    i: int,
                |
                    0 <= i < vals.len() ==> out@[i]@ == vals[i]),
                ArgsOutcome::Unrecognised(n) => r matches Err(
                    LauncherError::JavaArgumentParseError(
                        JavaArgumentsError::UnrecognisedGameArgument(m),
                    ),
                ) && m@ == n,
                ArgsOutcome::Fail(e) => r == Err::<Vec<String>, LauncherError>(e),
            },
    {
        let args = match &version_manifest.arguments {
            Some(a) => a,
            None => {
                return Err(LauncherError::NoArgs);
            },
        };
        let ghost elems = args.game@;
        let mut out: Vec<String> = Vec::new();
        let mut i: usize = 0;
        proof {
            assert(elems.skip(0) =~= elems);
            assert(out@.map_values(|s: String| s@) =~= Seq::<Seq<char>>::empty());
        }
        while i < args.game.len()
            invariant
                i <= elems.len(),
                elems == args.game@,
                version_manifest.arguments matches Some(a) && a.game@ == elems,
                spec_game_arguments(*self, *version_manifest) == spec_game_args_list(
                    *self,
                    elems.skip(i as int),
                    out@.map_values(|s: String| s@),
                ),
            decreases elems.len() - i,
        {
            proof {
                assert(elems.skip(i as int)[0] == elems[i as int]);
                assert(elems.skip(i as int).skip(1) =~= elems.skip(i + 1));
            }
            let formatted: Option<String> = match &args.game[i] {
                GameElement::GameClass(argument) => {
                    match GameArguments::parse_class_argument(self, argument) {
                        Ok(v) => v,
                        Err(e) => {
                            return Err(LauncherError::JavaArgumentParseError(e));
                        },
                    }
                },
                GameElement::String(argument) => {
                    match GameArguments::parse_string_argument(self, argument.clone()) {
                        Ok(v) => v,
                        Err(e) => {
                            return Err(LauncherError::JavaArgumentParseError(e));
                        },
                    }
                },
            };
            let ghost before = out@.map_values(|s: String| s@);
            match formatted {
                Some(arg) => {
                    let ghost a = arg@;
                    out.push(arg);
                    proof {
                        assert(out@.map_values(|s: String| s@) =~= before.push(a));
                    }
                },
                None => (),
            }
            i = i + 1;
        }
        proof {
            assert(elems.skip(elems.len() as int) =~= Seq::<GameElement>::empty());
        }
        Ok(out)
    }

    /// Renders the manifest's declared jvm arguments in order, substituting
    /// the natives directory, the launcher branding and the classpath into
    /// each entry; conditional entries whose rules reject the platform
    /// contribute nothing.
    pub fn parse_java_arguments(&self, version_manifest: &Version, platform: &Platform) -> (r:
        Result<Vec<String>, LauncherError>)
        ensures
            match spec_jvm_arguments(*self, *version_manifest, *platform) {
                ArgsOutcome::Args(vals) => r matches Ok(out) && out@.len() == vals.len() && (forall|
                    i: int,
                |
                    0 <= i < vals.len() ==> out@[i]@ == vals[i]),
                ArgsOutcome::Unrecognised(n) => r matches Err(
                    LauncherError::JavaArgumentParseError(
                        JavaArgumentsError::UnrecognisedGameArgument(m),
                    ),
                ) && m@ == n,
                ArgsOutcome::Fail(e) => r == Err::<Vec<String>, LauncherError>(e),
            },
    {
        let args = match &version_manifest.arguments {
            Some(a) => a,
            None => {
                return Err(LauncherError::NoArgs);
            },
        };
        let ghost elems = args.jvm@;
        let mut out: Vec<String> = Vec::new();
        let mut i: usize = 0;
        proof {
            assert(elems.skip(0) =~= elems);
            assert(out@.map_values(|s: String| s@) =~= Seq::<Seq<char>>::empty());
        }
        while i < args.jvm.len()
            invariant
                i <= elems.len(),
                elems == args.jvm@,
                version_manifest.arguments matches Some(a) && a.jvm@ == elems,
                spec_jvm_arguments(*self, *version_manifest, *platform) == spec_jvm_args_list(
                    *self,
                    *version_manifest,
                    *platform,
                    elems.skip(i as int),
                    out@.map_values(|s: String| s@),
                ),
            decreases elems.len() - i,
        {
            proof {
                assert(elems.skip(i as int)[0] == elems[i as int]);
                assert(elems.skip(i as int).skip(1) =~= elems.skip(i + 1));
            }
            let formatted: Option<String> = match &args.jvm[i] {
                JvmElement::JvmClass(argument) => {
                    match JavaArguments::parse_class_argument(
                        self,
                        version_manifest,
                        argument,
                        platform,
                    ) {
                        Ok(v) => v,
                        Err(e) => {
                            return Err(LauncherError::JavaArgumentParseError(e));
                        },
                    }
                },
                JvmElement::String(argument) => {
                    match JavaArguments::parse_string_argument(
                        self,
                        version_manifest,
                        argument.clone(),
                        platform.os,
                    ) {
                        Ok(v) => Some(v),
                        Err(e) => {
                            return Err(LauncherError::JavaArgumentParseError(e));
                        },
                    }
                },
            };
            let ghost before = out@.map_values(|s: String| s@);
            match formatted {
                Some(arg) => {
                    let ghost a = arg@;
                    out.push(arg);
                    proof {
                        assert(out@.map_values(|s: String| s@) =~= before.push(a));
                    }
                },
                None => (),
            }
            i = i + 1;
        }
        proof {
            assert(elems.skip(elems.len() as int) =~= Seq::<JvmElement>::empty());
        }
        Ok(out)
    }
}

} // verus!
