use vstd::prelude::*;
use vstd::string::StringExecFns;

verus! {

/// What a launch descriptor says, over mathematical values.
pub struct LaunchDescriptorView {
    pub executable: Seq<char>,
    pub arguments: Seq<Seq<char>>,
    pub environment: Seq<(Seq<char>, Seq<char>)>,
}

/// No two entries of an environment name the same variable.
pub open spec fn env_keys_unique(env: Seq<(Seq<char>, Seq<char>)>) -> bool {
    forall|i: int, j: int| 0 <= i < j < env.len() ==> #[trigger] env[i].0 != #[trigger] env[j].0
}

/// The program to run, the arguments handed to it, and the environment
/// variables it is started with.
#[derive(Debug, Clone, PartialEq, Eq)]
pub struct LaunchDescriptor {
    pub executable: String,
    pub arguments: Vec<String>,
    pub environment: Vec<(String, String)>,
}

impl View for LaunchDescriptor {
    type V = LaunchDescriptorView;

    open spec fn view(&self) -> LaunchDescriptorView {
        LaunchDescriptorView {
            executable: self.executable@,
            arguments: self.arguments@.map_values(|a: String| a@),
            environment: self.environment@.map_values(|kv: (String, String)| (kv.0@, kv.1@)),
        }
    }
}

impl LaunchDescriptor {
    /// The environment is a mapping: each variable is set at most once.
    pub open spec fn wf(&self) -> bool {
        env_keys_unique(self@.environment)
    }
}

/// The text that reports an identifier that the registry does not know.
pub open spec fn unknown_server_message(id: Seq<char>) -> Seq<char> {
    "Unknown server: "@ + id
}

/// The identifier handed to the resolver matched no known server.
#[derive(Debug, Clone, PartialEq, Eq)]
pub struct UnknownServerError {
    pub id: String,
}

impl UnknownServerError {
    /// The message shown to the user, naming the identifier verbatim.
    pub fn message(&self) -> (r: String)
        ensures
            r@ == unknown_server_message(self.id@),
    {
        let mut r = "Unknown server: ".to_owned();
        r.append(self.id.as_str());
        r
    }
}

} // verus!
