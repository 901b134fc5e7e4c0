//! Fixed settings and the paths derived from the asset directory.
use vstd::prelude::*;

verus! {

/// How long a hit frame stays up before the idle frame returns, in milliseconds.
pub const ANIM_DURATION_MS: u32 = 150;

pub const APP_ID: &'static str = "com.example.BongoCat";

pub const DB_FILENAME: &'static str = "sqlite.db";

pub const IDLE_ASSET: &'static str = "idle.png";

pub const HIT_LEFT_ASSET: &'static str = "hit_left.png";

pub const HIT_RIGHT_ASSET: &'static str = "hit_right.png";

/// Name of the directory under the user's configuration directory.
pub const CONFIG_SUBDIR: &'static str = "bongo-cat";

pub const WINDOW_MARGIN_BOTTOM: i32 = 93;

pub const WINDOW_MARGIN_RIGHT: i32 = 7;

/// `dir` joined with the relative path `name` on Unix: a `/` goes between
/// them unless `dir` is empty or already ends with one.
pub open spec fn joined(dir: Seq<char>, name: Seq<char>) -> Seq<char> {
    if dir.len() == 0 {
        name
    } else if dir.last() == '/' {
        dir + name
    } else {
        dir + seq!['/'] + name
    }
}

/// A relative path that `Path::join` appends rather than substitutes.
pub open spec fn is_relative_name(name: Seq<char>) -> bool {
    name.len() > 0 && name[0] != '/'
}

/// Relies on `std::path::Path::join`: a relative path is pushed after the
/// base, with a separator added only when the base is non-empty and does not
/// end in one. Both parts are UTF-8, so the lossy conversion back keeps them.
#[verifier::external_body]
pub(crate) fn join_path(dir: &str, name: &str) -> (r: String)
    requires
        is_relative_name(name@),
    ensures
        r@ == joined(dir@, name@),
{
    std::path::Path::new(dir).join(name).to_string_lossy().into_owned()
}

/// The asset directory: the override when one is given, else `bongo-cat`
/// under the configuration directory; `None` when neither is known.
pub fn asset_dir(env_override: Option<&str>, config_dir: Option<&str>) -> (r: Option<String>)
    ensures
        env_override matches Some(o) ==> r matches Some(d) && d@ == o@,
        env_override is None ==> (r is Some <==> config_dir is Some),
        env_override is None ==> (config_dir matches Some(c) ==> r matches Some(d) && d@ == joined(
            c@,
            CONFIG_SUBDIR@,
        )),
{
    match env_override {
        Some(o) => Some(o.to_string()),
        None => match config_dir {
            Some(c) => {
                proof {
                    reveal_strlit("bongo-cat");
                }
                Some(join_path(c, CONFIG_SUBDIR))
            },
            None => None,
        },
    }
}

/// Where the counter store lives inside the asset directory.
pub fn db_path(asset_dir: &str) -> (r: String)
    ensures
        r@ == joined(asset_dir@, DB_FILENAME@),
{
    proof {
        reveal_strlit("sqlite.db");
    }
    join_path(asset_dir, DB_FILENAME)
}

} // verus!
