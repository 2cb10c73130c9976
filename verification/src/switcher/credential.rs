//! The credential helper: Codex runs this program with
//! `--codex-provider-token <profile id>` and reads the API key it prints.

use vstd::prelude::*;

use crate::switcher::config::TOKEN_FLAG;
use crate::switcher::models::{StoredProviderProfile, SwitcherDatabase, profiles_view};
use crate::switcher::store::{find_profile_index, index_with_id};
use crate::switcher::{ApiError, ApiResult, error_spec};
use crate::text::{copy_str, strings_view};

verus! {

pub const CREDENTIAL_MISSING_MSG: &'static str = "没有找到 Provider 凭据。";

pub const API_KEY_MISSING: &'static str = "api_key_missing";

pub const API_KEY_MISSING_MSG: &'static str = "此 Provider 尚未保存 API Key。";

/// Index of the first argument at or after `i` that is the token flag and
/// has a value after it, or -1.
pub open spec fn flag_index(args: Seq<Seq<char>>, i: int) -> int
    decreases args.len() - i,
{
    if i < 0 || i + 1 >= args.len() {
        -1
    } else if args[i] == TOKEN_FLAG@ {
        i
    } else {
        flag_index(args, i + 1)
    }
}

/// The profile ID after the first `--codex-provider-token` among the
/// arguments (without the program name), if any.
pub fn provider_token_argument(args: &Vec<String>) -> (out: Option<String>)
    ensures
        ({
            let k = flag_index(strings_view(args@), 0);
            match out {
                Some(id) => k >= 0 && id@ == args@[k + 1]@,
                None => k == -1,
            }
        }),
{
    let ghost a = strings_view(args@);
    let mut i: usize = 0;
    while i < args.len() && i + 1 < args.len()
        invariant
            i <= args.len(),
            a == strings_view(args@),
            flag_index(a, 0) == flag_index(a, i as int),
        decreases args.len() - i,
    {
        let flag = copy_str(TOKEN_FLAG);
        let arg = copy_str(args[i].as_str());
        if arg == flag {
            return Some(copy_str(args[i + 1].as_str()));
        }
        i = i + 1;
    }
    None
}

/// The profile whose key the helper prints; its absence is the helper's
/// error message.
pub fn token_profile<'a>(database: &'a SwitcherDatabase, profile_id: &str) -> (out: Result<
    &'a StoredProviderProfile,
    String,
>)
    ensures
        ({
            let i = index_with_id(profiles_view(database.profiles@), profile_id@);
            match out {
                Ok(p) => i >= 0 && p@ == profiles_view(database.profiles@)[i],
                Err(m) => i == -1 && m@ == CREDENTIAL_MISSING_MSG@,
            }
        }),
{
    match find_profile_index(&database.profiles, profile_id) {
        Some(i) => {
            proof {
                assert(profiles_view(database.profiles@)[i as int] == database.profiles@[i as int]@);
            }
            Ok(&database.profiles[i])
        },
        None => Err(copy_str(CREDENTIAL_MISSING_MSG)),
    }
}

/// The protected key of a provider, which the helper unprotects; a provider
/// without one is refused.
pub fn protected_provider_key(profile: &StoredProviderProfile) -> (out: ApiResult<String>)
    ensures
        match profile.protected_api_key {
            Some(k) => out matches Ok(s) && s@ == k@,
            None => out matches Err(e) && e@ == error_spec(API_KEY_MISSING@, API_KEY_MISSING_MSG@),
        },
{
    match &profile.protected_api_key {
        Some(k) => Ok(copy_str(k.as_str())),
        None => Err(ApiError::new(API_KEY_MISSING, API_KEY_MISSING_MSG)),
    }
}

} // verus!
