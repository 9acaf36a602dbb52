//! Run parameters and remote endpoints, with the part of validation that
//! needs no outside call.

use vstd::prelude::*;

verus! {

/// Parameters of one run. Loaded once at startup and never mutated.
pub struct RunConfig {
    /// Bare name of the target executable, without directory or extension.
    pub executable_name: String,
    /// How many instances to spawn; a run must spawn at least one.
    pub instance_count: i32,
    /// How long the fleet is left running before teardown, in seconds.
    pub run_duration_secs: u64,
    /// Optional pause inserted between successive spawns, in seconds.
    pub stagger_delay_secs: Option<u64>,
    /// Extra command-line arguments handed verbatim to every instance.
    pub extra_args: Vec<String>,
}

/// Addresses and literals for the remote collaborators. Loaded once and
/// never mutated.
pub struct RemoteEndpoints {
    /// Base URL of the remote store holding the shared user-number counter.
    pub counter_store_url: String,
    /// Complete URL of the login endpoint that issues credentials.
    pub login_url: String,
    /// Prefix every synthetic username starts with.
    pub username_prefix: String,
    /// The one password shared by every synthetic user.
    pub shared_test_password: String,
    /// Directory the credential file is written into.
    pub credential_output_dir: String,
}

/// The relative path the target executable is expected and launched at.
pub open spec fn spec_executable_path(name: Seq<char>) -> Seq<char> {
    "./"@ + name + ".exe"@
}

/// Whether the requested instance count alone passes validation.
pub open spec fn spec_count_valid(count: int) -> bool {
    0 < count
}

impl RunConfig {
    /// The path the target executable is launched from: the bare name,
    /// relative to the working directory, with the fixed extension.
    pub fn executable_path(&self) -> (r: String)
        ensures
            r@ == spec_executable_path(self.executable_name@),
    {
        let mut out = "./".to_owned();
        out.append(self.executable_name.as_str());
        out.append(".exe");
        assert(out@ =~= spec_executable_path(self.executable_name@));
        out
    }

    /// The call-free half of validation: a run must spawn at least one
    /// instance.
    pub fn count_valid(&self) -> (r: bool)
        ensures
            r == spec_count_valid(self.instance_count as int),
    {
        0 < self.instance_count
    }
}

/// The extra process arguments implied by the forwarded boolean flag.
pub fn extra_args_from_flag(null_rhi: bool) -> (r: Vec<String>)
    ensures
        null_rhi ==> r@.len() == 1 && r@[0]@ == "-nullRHI"@,
        !null_rhi ==> r@.len() == 0,
{
    let mut args: Vec<String> = Vec::new();
    if null_rhi {
        args.push("-nullRHI".to_owned());
    }
    args
}

/// A copy of a vector of strings, character for character.
pub fn clone_string_vec(v: &Vec<String>) -> (r: Vec<String>)
    ensures
        r.deep_view() == v.deep_view(),
{
    let mut out: Vec<String> = Vec::new();
    let mut i: usize = 0;
    while i < v.len()
        invariant
            i <= v@.len(),
            out@.len() == i,
            forall|j: int| 0 <= j < i ==> #[trigger] out@[j]@ == v@[j]@,
        decreases v@.len() - i,
    {
        out.push(v[i].clone());
        i += 1;
    }
    proof {
        assert(out.deep_view() =~= v.deep_view());
    }
    out
}

impl Default for RemoteEndpoints {
    /// The placeholder endpoints written out when no configuration exists
    /// yet, every field left for the operator to fill in.
    fn default() -> (r: RemoteEndpoints)
        ensures
            r.counter_store_url@ == "default"@,
            r.login_url@ == "default"@,
            r.username_prefix@ == "default"@,
            r.shared_test_password@ == "default"@,
            r.credential_output_dir@ == "default"@,
    {
        RemoteEndpoints {
            counter_store_url: "default".to_owned(),
            login_url: "default".to_owned(),
            username_prefix: "default".to_owned(),
            shared_test_password: "default".to_owned(),
            credential_output_dir: "default".to_owned(),
        }
    }
}

} // verus!
