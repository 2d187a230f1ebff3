use vstd::prelude::*;
use crate::model::{ContainerRecord, RecordView, records_view};

verus! {

/// The command of this application when it runs as a container itself.
pub const ENTRY_POINT: &'static str = "/app/oxker";

/// Environment variable that marks a containerised run.
pub const ENV_KEY: &'static str = "OXKER_RUNTIME";

/// The value of `ENV_KEY` in a containerised run.
pub const ENV_VALUE: &'static str = "container";

/// Environment variable that names the daemon's host.
pub const DOCKER_HOST: &'static str = "DOCKER_HOST";

/// Milliseconds to wait before the first reconciliation in a containerised
/// run, so that the daemon is up first.
pub const CONTAINERISED_DELAY_MS: u64 = 250;

/// The value of the first pair of `env` whose key is `key`.
pub open spec fn env_value(env: Seq<(String, String)>, key: Seq<char>) -> Option<Seq<char>>
    decreases env.len(),
{
    if env.len() == 0 {
        None
    } else if env[0].0@ == key {
        Some(env[0].1@)
    } else {
        env_value(env.drop_first(), key)
    }
}

/// The daemon host to connect to: the one given on the command line, else
/// the one in the environment, else none (the local default socket).
pub open spec fn host_choice(cli_host: Option<Seq<char>>, env: Seq<(String, String)>) -> Option<Seq<char>> {
    match cli_host {
        Some(h) => Some(h),
        None => env_value(env, DOCKER_HOST@),
    }
}

/// The view of an optional string.
pub open spec fn opt_view(o: Option<String>) -> Option<Seq<char>> {
    match o {
        Some(s) => Some(s@),
        None => None,
    }
}

/// Value of the first pair of `env` with key `key`.
pub fn find_env(env: &Vec<(String, String)>, key: &String) -> (r: Option<String>)
    ensures
        match r {
            Some(v) => env_value(env@, key@) == Some(v@),
            None => env_value(env@, key@) is None,
        },
{
    let mut j: usize = 0;
    assert(env@.subrange(0, env@.len() as int) =~= env@);
    while j < env.len()
        invariant
            j <= env.len(),
            env_value(env@, key@) == env_value(env@.subrange(j as int, env@.len() as int), key@),
        decreases env.len() - j,
    {
        let ghost rest = env@.subrange(j as int, env@.len() as int);
        assert(rest.drop_first() =~= env@.subrange(j + 1, env@.len() as int));
        if env[j].0 == *key {
            return Some(env[j].1.clone());
        }
        j = j + 1;
    }
    None
}

/// Resolves the daemon host: the command line takes priority over the
/// `DOCKER_HOST` environment variable.
pub fn resolve_host(cli_host: Option<String>, env: &Vec<(String, String)>) -> (r: Option<String>)
    ensures
        match r {
            Some(h) => host_choice(opt_view(cli_host), env@) == Some(h@),
            None => host_choice(opt_view(cli_host), env@) is None,
        },
{
    match cli_host {
        Some(h) => Some(h),
        None => find_env(env, &DOCKER_HOST.to_owned()),
    }
}

/// Whether `env` marks this process as running inside a container.
pub open spec fn containerised_env(env: Seq<(String, String)>) -> bool {
    exists|j: int| 0 <= j < env.len() && #[trigger] env[j].0@ == ENV_KEY@ && env[j].1@ == ENV_VALUE@
}

/// Whether the environment marks this process as running inside a
/// container.
pub fn is_containerised(env: &Vec<(String, String)>) -> (r: bool)
    ensures
        r == containerised_env(env@),
{
    let key = ENV_KEY.to_owned();
    let value = ENV_VALUE.to_owned();
    let mut j: usize = 0;
    while j < env.len()
        invariant
            j <= env.len(),
            key@ == ENV_KEY@,
            value@ == ENV_VALUE@,
            forall|k: int| 0 <= k < j ==> !(#[trigger] env@[k].0@ == ENV_KEY@ && env@[k].1@ == ENV_VALUE@),
        decreases env.len() - j,
    {
        if env[j].0 == key && env[j].1 == value {
            return true;
        }
        j = j + 1;
    }
    false
}

/// Whether a record is this application's own container.
pub open spec fn is_self(r: RecordView) -> bool {
    r.command == ENTRY_POINT@
}

/// The listing to display: in a containerised run this application's own
/// container is left out; otherwise the listing is kept whole.
pub open spec fn displayed(listing: Seq<RecordView>, containerised: bool) -> Seq<RecordView> {
    if containerised {
        listing.filter(|r: RecordView| !is_self(r))
    } else {
        listing
    }
}

/// Removes this application's own container from a listing when running
/// containerised.
pub fn drop_self(listing: Vec<ContainerRecord>, containerised: bool) -> (r: Vec<ContainerRecord>)
    ensures
        records_view(r@) == displayed(records_view(listing@), containerised),
{
    if !containerised {
        return listing;
    }
    let ghost lv = records_view(listing@);
    let entry = ENTRY_POINT.to_owned();
    let mut out: Vec<ContainerRecord> = Vec::new();
    let mut rest = listing;
    let ghost n = lv.len();
    proof {
        reveal(Seq::filter);
        assert(lv.subrange(0, 0) =~= Seq::<RecordView>::empty());
        assert(records_view(rest@) =~= lv.subrange(0, n as int));
    }
    while rest.len() > 0
        invariant
            entry@ == ENTRY_POINT@,
            n == lv.len(),
            rest@.len() <= n,
            records_view(rest@) == lv.subrange(n - rest@.len(), n as int),
            records_view(out@) == lv.subrange(0, n - rest@.len()).filter(|r: RecordView| !is_self(r)),
        decreases rest.len(),
    {
        let ghost k = n - rest@.len();
        let ghost before = records_view(out@);
        let ghost rest_before = rest@;
        let rec = rest.remove(0);
        proof {
            reveal(Seq::filter);
            assert(rec == rest_before[0]);
            assert(records_view(rest_before)[0] == rest_before[0]@);
            assert(lv.subrange(n - rest_before.len(), n as int)[0] == lv[k]);
            assert(rec@ == lv[k]);
            assert(lv.subrange(0, k + 1).drop_last() =~= lv.subrange(0, k));
            assert forall|i: int| 0 <= i < rest@.len() implies #[trigger] records_view(rest@)[i]
                == lv[n - rest@.len() + i] by {
                assert(rest@[i] == rest_before[i + 1]);
                assert(records_view(rest_before)[i + 1] == rest_before[i + 1]@);
            }
            assert(records_view(rest@) =~= lv.subrange(n - rest@.len(), n as int));
        }
        if rec.command != entry {
            out.push(rec);
            proof {
                assert(records_view(out@) =~= before.push(lv[k]));
            }
        }
    }
    proof {
        assert(lv.subrange(0, n as int) =~= lv);
    }
    out
}

} // verus!
