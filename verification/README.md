# ghommit

Commits to a branch on GitHub as a GitHub app, through GitHub's GraphQL and REST APIs. The
logic is written in Rust and verified with [Verus](https://github.com/verus-lang/verus).

- `src/` is the verified library. It decides what is sent to GitHub and what follows from the
  answers; it makes the JSON bodies, the headers and the JSON web token.
  - `github/conversation.rs`: the conversation that makes sure that a branch exists and puts a
    commit on it, as a function from what happened to what is to be done next
  - `github/conversation_laws.rs`: what holds of every conversation, such as that the commit is
    only asked for once the branch is known to exist, and that the conversation ends
  - `github/request.rs`, `github/rest_api/`, `github/response.rs`: bodies of requests and answers
  - `json.rs`, `json_laws.rs`: JSON texts, and that a text determines the value it stands for
  - `headers.rs`, `jwt.rs`, `clock.rs`, `status.rs`: what is needed of HTTP and of the app's
    credentials
- `app/` does what the conversation asks for: it builds HTTP clients, posts requests and
  deserializes answers.
- `tests/` runs the library on concrete values.

What the library relies on without proof stands in `src/` as functions marked
`#[verifier::external_body]` and as `assume_specification` items, each with a comment that says
what is claimed of the function behind it. Where such a function computes something that is not
written out, an `uninterp` spec function gives its result a name: that the name depends on its
arguments alone is relied on too.
