# odoo-operator

A Kubernetes operator for Odoo instances whose decisions are verified with
[Verus](https://github.com/verus-lang/verus).

- `src/` is the library. It holds the resources that the operator works on, the
  state machine of an instance, the rules of the validating webhook, the manifests
  of the children and of the batch jobs, the steps of a filestore or database
  migration, the statements that are sent to PostgreSQL and the texts of events and
  notifications. Every public decision has a contract; what relates several
  functions stands in proof functions whose names begin with `law_`.
- `app/` is the operator itself. It talks to the Kubernetes API, to PostgreSQL and
  to webhooks, and asks the library what to do. Sequences of calls run as stages: the
  library names the next call, the operator makes it and hands back how it ended.
- `tests/` runs the library on concrete resources.

The module `preview` holds the rules of the operator that gives each kind of job a
controller of its own. The program follows them when it is started with
`--preview`.

Times are passed in two ways: a function whose name ends in `_at` takes the time as
an argument and has an exact contract, and the function without the suffix reads
the clock. Functions of other crates stand behind small wrappers in the module that
calls them; the comment above each says what is taken on trust.
