//! Errors of the operator.

use vstd::prelude::*;

use crate::text::concat2;

verus! {

/// What can go wrong while an instance is reconciled.  The parts that come from
/// outside are held as their messages.
#[derive(Clone, Debug)]
pub enum Error {
    Kube(String),
    Postgres(String),
    Serde(String),
    Yaml(String),
    Http(String),
    Config(String),
    NotFound(String),
    Reconcile(String),
    Finalizer(String),
}

impl Error {
    /// What the kind of the error is introduced with.
    pub open spec fn prefix(self) -> Seq<char> {
        match self {
            Error::Kube(_) => "Kubernetes API error: "@,
            Error::Postgres(_) => "PostgreSQL error: "@,
            Error::Serde(_) => "Serialization error: "@,
            Error::Yaml(_) => "YAML parse error: "@,
            Error::Http(_) => "HTTP error: "@,
            Error::Config(_) => "Configuration error: "@,
            Error::NotFound(_) => "Resource not found: "@,
            Error::Reconcile(_) => "Reconcile error: "@,
            Error::Finalizer(_) => "Finalizer error: "@,
        }
    }

    /// What the error is about.
    pub open spec fn detail(self) -> Seq<char> {
        match self {
            Error::Kube(m) => m@,
            Error::Postgres(m) => m@,
            Error::Serde(m) => m@,
            Error::Yaml(m) => m@,
            Error::Http(m) => m@,
            Error::Config(m) => m@,
            Error::NotFound(m) => m@,
            Error::Reconcile(m) => m@,
            Error::Finalizer(m) => m@,
        }
    }

    /// An error of the reconciliation.
    pub fn reconcile(msg: &str) -> (r: Self)
        ensures
            r is Reconcile,
            r.detail() == msg@,
    {
        Error::Reconcile(msg.to_owned())
    }

    /// An error in the configuration.
    pub fn config(msg: &str) -> (r: Self)
        ensures
            r is Config,
            r.detail() == msg@,
    {
        Error::Config(msg.to_owned())
    }

    /// The error in words.
    pub fn message(&self) -> (r: String)
        ensures
            r@ == self.prefix() + self.detail(),
    {
        match self {
            Error::Kube(m) => concat2("Kubernetes API error: ", m.as_str()),
            Error::Postgres(m) => concat2("PostgreSQL error: ", m.as_str()),
            Error::Serde(m) => concat2("Serialization error: ", m.as_str()),
            Error::Yaml(m) => concat2("YAML parse error: ", m.as_str()),
            Error::Http(m) => concat2("HTTP error: ", m.as_str()),
            Error::Config(m) => concat2("Configuration error: ", m.as_str()),
            Error::NotFound(m) => concat2("Resource not found: ", m.as_str()),
            Error::Reconcile(m) => concat2("Reconcile error: ", m.as_str()),
            Error::Finalizer(m) => concat2("Finalizer error: ", m.as_str()),
        }
    }
}

/// An error in words is what its kind is introduced with and what it is about.
pub proof fn law_errors_say_what_they_are_about(error: &Error, r: String)
    requires
        call_ensures(Error::message, (error,), r),
    ensures
        *error matches Error::Kube(m) ==> r@ == "Kubernetes API error: "@ + m@,
        *error matches Error::Postgres(m) ==> r@ == "PostgreSQL error: "@ + m@,
        *error matches Error::Serde(m) ==> r@ == "Serialization error: "@ + m@,
        *error matches Error::Yaml(m) ==> r@ == "YAML parse error: "@ + m@,
        *error matches Error::Http(m) ==> r@ == "HTTP error: "@ + m@,
        *error matches Error::Config(m) ==> r@ == "Configuration error: "@ + m@,
        *error matches Error::NotFound(m) ==> r@ == "Resource not found: "@ + m@,
        *error matches Error::Reconcile(m) ==> r@ == "Reconcile error: "@ + m@,
        *error matches Error::Finalizer(m) ==> r@ == "Finalizer error: "@ + m@,
{
}

} // verus!
