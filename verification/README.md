# nix-relay

An authenticated relay between WebSocket clients and a Nix daemon. Clients show a token of an
OpenID Connect issuer (such as GitHub Actions) or a token signed with a local Ed25519 key, and
are then connected to a daemon of their own.

The library under `src/` makes every decision and is verified with Verus. What it is told and
what it says are plain values: it takes in a header, a clock reading or the reply to a request,
and hands out the next step.

| module    | what it decides                                                         |
|-----------|-------------------------------------------------------------------------|
| `text`    | trimming, comparing and reading numbers                                 |
| `error`   | what a failed request is answered                                       |
| `config`  | how a file and the environment change the defaults                      |
| `serve`   | what a server needs                                                     |
| `jwt`     | what a token carries; the calls into `jsonwebtoken` and `ed25519-dalek` |
| `keys`    | which published keys are kept                                           |
| `auth`    | tokens of the issuer, and when its keys are fetched                     |
| `local`   | tokens signed with the local key                                        |
| `service` | the two kinds of tokens behind one door                                 |
| `token`   | making keys and local tokens                                            |
| `relay`   | from a request to a session                                             |
| `session` | from the frames of a session to the bytes of a daemon and back          |

Functions named `law_...` are proofs of what holds across calls. Functions marked
`external_body` call other crates; their contracts are taken on trust, and their comments say
what is.

The program under `app/` does the rest: it reads files and the environment, talks to the
network, and runs the daemon.
