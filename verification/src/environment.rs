//! The environment that the GreenMail container is started with, as a
//! mathematical map from variable names to values, and the laws that the two
//! overrides obey.

use vstd::prelude::*;

verus! {

/// Name of the variable that carries the options of the GreenMail server.
pub const GREENMAIL_OPTS: &'static str = "GREENMAIL_OPTS";

/// Name of the variable that carries the options of the Java virtual machine.
pub const JAVA_OPTS: &'static str = "JAVA_OPTS";

/// GreenMail options of a descriptor that was not customised: all test
/// services, bound to every interface, without authentication.
pub const DEFAULT_GREENMAIL_OPTS: &'static str =
    "-Dgreenmail.setup.test.all -Dgreenmail.hostname=0.0.0.0 -Dgreenmail.auth.disabled";

/// Java options of a descriptor that was not customised.
pub const DEFAULT_JAVA_OPTS: &'static str = "-Djava.net.preferIPv4Stack=true";

/// The names that every environment of a descriptor holds, and the only ones.
pub open spec fn environment_keys() -> Set<Seq<char>> {
    set![GREENMAIL_OPTS@, JAVA_OPTS@]
}

/// The environment of a descriptor that was not customised.
pub open spec fn default_environment() -> Map<Seq<char>, Seq<char>> {
    map![
        GREENMAIL_OPTS@ => DEFAULT_GREENMAIL_OPTS@,
        JAVA_OPTS@ => DEFAULT_JAVA_OPTS@,
    ]
}

/// `env` with the GreenMail options replaced by `value`.
pub open spec fn override_greenmail_opts(
    env: Map<Seq<char>, Seq<char>>,
    value: Seq<char>,
) -> Map<Seq<char>, Seq<char>> {
    env.insert(GREENMAIL_OPTS@, value)
}

/// `env` with the Java options replaced by `value`.
pub open spec fn override_java_opts(
    env: Map<Seq<char>, Seq<char>>,
    value: Seq<char>,
) -> Map<Seq<char>, Seq<char>> {
    env.insert(JAVA_OPTS@, value)
}

/// The two variable names differ.
pub proof fn lemma_keys_differ()
    ensures
        GREENMAIL_OPTS@ != JAVA_OPTS@,
{
    reveal_strlit("GREENMAIL_OPTS");
    reveal_strlit("JAVA_OPTS");
    assert(GREENMAIL_OPTS@.len() != JAVA_OPTS@.len());
}

/// The default environment holds the two names and no other, each with its
/// default value.
pub proof fn lemma_default_environment()
    ensures
        default_environment().dom() == environment_keys(),
        default_environment()[GREENMAIL_OPTS@] == DEFAULT_GREENMAIL_OPTS@,
        default_environment()[JAVA_OPTS@] == DEFAULT_JAVA_OPTS@,
{
    lemma_keys_differ();
}

/// Overriding the GreenMail options sets that entry to the given value and
/// leaves the Java options as they were. The last override is the one that
/// counts, so to repeat an override changes nothing.
pub proof fn lemma_override_greenmail_opts(
    env: Map<Seq<char>, Seq<char>>,
    earlier: Seq<char>,
    value: Seq<char>,
)
    ensures
        override_greenmail_opts(env, value).dom() == env.dom().insert(GREENMAIL_OPTS@),
        override_greenmail_opts(env, value)[GREENMAIL_OPTS@] == value,
        override_greenmail_opts(env, value).contains_key(JAVA_OPTS@) == env.contains_key(
            JAVA_OPTS@,
        ),
        override_greenmail_opts(env, value)[JAVA_OPTS@] == env[JAVA_OPTS@],
        override_greenmail_opts(override_greenmail_opts(env, earlier), value)
            == override_greenmail_opts(env, value),
        override_greenmail_opts(override_greenmail_opts(env, value), value)
            == override_greenmail_opts(env, value),
{
    lemma_keys_differ();
}

/// Overriding the Java options sets that entry to the given value and leaves
/// the GreenMail options as they were. The last override is the one that
/// counts, so to repeat an override changes nothing.
pub proof fn lemma_override_java_opts(
    env: Map<Seq<char>, Seq<char>>,
    earlier: Seq<char>,
    value: Seq<char>,
)
    ensures
        override_java_opts(env, value).dom() == env.dom().insert(JAVA_OPTS@),
        override_java_opts(env, value)[JAVA_OPTS@] == value,
        override_java_opts(env, value).contains_key(GREENMAIL_OPTS@) == env.contains_key(
            GREENMAIL_OPTS@,
        ),
        override_java_opts(env, value)[GREENMAIL_OPTS@] == env[GREENMAIL_OPTS@],
        override_java_opts(override_java_opts(env, earlier), value)
            == override_java_opts(env, value),
        override_java_opts(override_java_opts(env, value), value)
            == override_java_opts(env, value),
{
    lemma_keys_differ();
}

/// The two overrides commute: whichever is applied first, the environment
/// that results is the same.
pub proof fn lemma_overrides_commute(
    env: Map<Seq<char>, Seq<char>>,
    greenmail_opts: Seq<char>,
    java_opts: Seq<char>,
)
    ensures
        override_java_opts(override_greenmail_opts(env, greenmail_opts), java_opts)
            == override_greenmail_opts(override_java_opts(env, java_opts), greenmail_opts),
{
    lemma_keys_differ();
}

/// Overrides keep an environment to its two names.
pub proof fn lemma_overrides_keep_keys(env: Map<Seq<char>, Seq<char>>, value: Seq<char>)
    requires
        env.dom() == environment_keys(),
    ensures
        override_greenmail_opts(env, value).dom() == environment_keys(),
        override_java_opts(env, value).dom() == environment_keys(),
{
}

} // verus!
