//! The descriptor of the GreenMail image: a value that names the image, lists
//! its ports and its environment, and says when a container of it is ready.

use crate::environment::default_environment;
use crate::environment::environment_keys;
use crate::environment::lemma_keys_differ;
use crate::environment::override_greenmail_opts;
use crate::environment::override_java_opts;
use crate::environment::DEFAULT_GREENMAIL_OPTS;
use crate::environment::DEFAULT_JAVA_OPTS;
use crate::environment::GREENMAIL_OPTS;
use crate::environment::JAVA_OPTS;
use crate::runner::stdout_message;
use crate::runner::tcp;
use crate::runner::tcp_port;
use crate::runner::wait_for_message_on_stdout;
use vstd::hash_map::StringHashMap;
use vstd::prelude::*;

verus! {

/// Name of the image.
pub const NAME: &'static str = "greenmail/standalone";

/// Tag of the image: one fixed release.
pub const TAG: &'static str = "2.1.3";

/// Port of the SMTP service.
pub const SMTP_PORT: u16 = 3025;

/// Port of the POP3 service.
pub const POP3_PORT: u16 = 3110;

/// Port of the IMAP service.
pub const IMAP_PORT: u16 = 3134;

/// Port of the SMTP service over TLS.
pub const SMTPS_PORT: u16 = 3465;

/// Port of the POP3 service over TLS.
pub const POP3S_PORT: u16 = 3993;

/// Port of the IMAP service over TLS.
pub const IMAPS_PORT: u16 = 3995;

/// Port of the management API.
pub const API_PORT: u16 = 8080;

/// What the server prints on its standard output once it accepts requests.
pub const READY_MESSAGE: &'static str = "Starting GreenMail API server at";

/// The ports that a GreenMail container listens on, in the order in which a
/// descriptor lists them.
pub open spec fn exposed_port_numbers() -> Seq<u16> {
    seq![SMTP_PORT, POP3_PORT, IMAP_PORT, SMTPS_PORT, POP3S_PORT, IMAPS_PORT, API_PORT]
}

/// Describes how to start GreenMail in a container. The only thing that varies
/// from one descriptor to another is the environment; its view is that
/// environment, and it always holds exactly the two names of
/// `environment_keys`.
pub struct Greenmail {
    env_vars: StringHashMap<String>,
}

impl View for Greenmail {
    type V = Map<Seq<char>, Seq<char>>;

    closed spec fn view(&self) -> Map<Seq<char>, Seq<char>> {
        self.env_vars@.map_values(|value: String| value@)
    }
}

impl Greenmail {
    /// The two names are always there, and no other.
    #[verifier::type_invariant]
    spec fn has_both_keys(&self) -> bool {
        self.env_vars@.dom() =~= environment_keys()
    }

    /// Overrides the greenmail options: the result holds `opts` under
    /// `GREENMAIL_OPTS`, whatever that text is, and is otherwise as `self`.
    pub fn with_greenmail_opts(self, opts: String) -> (descriptor: Self)
        ensures
            descriptor@ == override_greenmail_opts(self@, opts@),
            descriptor@.dom() == environment_keys(),
            descriptor@[GREENMAIL_OPTS@] == opts@,
            descriptor@[JAVA_OPTS@] == self@[JAVA_OPTS@],
    {
        proof {
            use_type_invariant(&self);
            lemma_keys_differ();
        }
        let mut env_vars = self.env_vars;
        env_vars.insert(GREENMAIL_OPTS.to_owned(), opts);
        Greenmail { env_vars }
    }

    /// Overrides the java options: the result holds `opts` under `JAVA_OPTS`,
    /// whatever that text is, and is otherwise as `self`.
    pub fn with_java_opts(self, opts: String) -> (descriptor: Self)
        ensures
            descriptor@ == override_java_opts(self@, opts@),
            descriptor@.dom() == environment_keys(),
            descriptor@[JAVA_OPTS@] == opts@,
            descriptor@[GREENMAIL_OPTS@] == self@[GREENMAIL_OPTS@],
    {
        proof {
            use_type_invariant(&self);
            lemma_keys_differ();
        }
        let mut env_vars = self.env_vars;
        env_vars.insert(JAVA_OPTS.to_owned(), opts);
        Greenmail { env_vars }
    }

    /// The name of the image, the same for every descriptor.
    pub fn name(&self) -> (name: &'static str)
        ensures
            name@ == NAME@,
    {
        NAME
    }

    /// The tag of the image, the same for every descriptor.
    pub fn tag(&self) -> (tag: &'static str)
        ensures
            tag@ == TAG@,
    {
        TAG
    }

    /// The name and the tag of the image. No customisation changes them.
    pub fn image_identity(&self) -> (identity: (&'static str, &'static str))
        ensures
            identity.0@ == NAME@,
            identity.1@ == TAG@,
    {
        (self.name(), self.tag())
    }

    /// The numbers of the ports that the container listens on: SMTP, POP3,
    /// IMAP, their three TLS variants and the management API, in this order.
    /// No customisation changes them.
    pub fn exposed_ports(&self) -> (ports: Vec<u16>)
        ensures
            ports@ == exposed_port_numbers(),
    {
        vec![SMTP_PORT, POP3_PORT, IMAP_PORT, SMTPS_PORT, POP3S_PORT, IMAPS_PORT, API_PORT]
    }

    /// The exposed ports as the runner takes them: each number of
    /// `exposed_ports` as a TCP port, in the same order.
    pub fn expose_ports(&self) -> (ports: Vec<testcontainers::core::ContainerPort>)
        ensures
            ports@ == exposed_port_numbers().map_values(|number: u16| tcp_port(number)),
    {
        let numbers = self.exposed_ports();
        let mut ports: Vec<testcontainers::core::ContainerPort> = Vec::new();
        let mut i: usize = 0;
        while i < numbers.len()
            invariant
                numbers@ == exposed_port_numbers(),
                i <= numbers@.len(),
                ports@.len() == i,
                forall|k: int| 0 <= k < i ==> ports@[k] == tcp_port(#[trigger] numbers@[k]),
            decreases numbers@.len() - i,
        {
            ports.push(tcp(numbers[i]));
            i += 1;
        }
        ports
    }

    /// The conditions under which a started container counts as ready: one,
    /// that `READY_MESSAGE` has appeared on its standard output.
    pub fn ready_conditions(&self) -> (conditions: Vec<testcontainers::core::WaitFor>)
        ensures
            conditions@ == seq![stdout_message(READY_MESSAGE@)],
    {
        vec![wait_for_message_on_stdout(READY_MESSAGE)]
    }

    /// The environment as a list of names and values: first the GreenMail
    /// options, then the Java options. These two are all that it holds.
    pub fn environment(&self) -> (entries: Vec<(String, String)>)
        ensures
            self@.dom() == environment_keys(),
            entries@.len() == 2,
            entries@[0].0@ == GREENMAIL_OPTS@,
            entries@[0].1@ == self@[GREENMAIL_OPTS@],
            entries@[1].0@ == JAVA_OPTS@,
            entries@[1].1@ == self@[JAVA_OPTS@],
    {
        proof {
            use_type_invariant(self);
        }
        let mut entries: Vec<(String, String)> = Vec::new();
        entries.push((GREENMAIL_OPTS.to_owned(), self.value_of(GREENMAIL_OPTS)));
        entries.push((JAVA_OPTS.to_owned(), self.value_of(JAVA_OPTS)));
        entries
    }

    /// A copy of the value that the environment holds under `key`.
    fn value_of(&self, key: &str) -> (value: String)
        requires
            environment_keys().contains(key@),
        ensures
            value@ == self@[key@],
    {
        proof {
            use_type_invariant(self);
        }
        self.env_vars.get(key).unwrap().clone()
    }
}

impl Clone for Greenmail {
    /// A descriptor with the same environment.
    fn clone(&self) -> (copy: Self)
        ensures
            copy@ == self@,
    {
        proof {
            use_type_invariant(self);
        }
        let mut env_vars = StringHashMap::new();
        env_vars.insert(GREENMAIL_OPTS.to_owned(), self.value_of(GREENMAIL_OPTS));
        env_vars.insert(JAVA_OPTS.to_owned(), self.value_of(JAVA_OPTS));
        Greenmail { env_vars }
    }
}

impl Default for Greenmail {
    /// A descriptor with the default environment.
    fn default() -> (descriptor: Self)
        ensures
            descriptor@ == default_environment(),
    {
        let mut env_vars = StringHashMap::new();
        env_vars.insert(GREENMAIL_OPTS.to_owned(), DEFAULT_GREENMAIL_OPTS.to_owned());
        env_vars.insert(JAVA_OPTS.to_owned(), DEFAULT_JAVA_OPTS.to_owned());
        Greenmail { env_vars }
    }
}

} // verus!
