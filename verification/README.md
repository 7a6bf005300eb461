# atlas_core

The rules of Atlas, a self-hosted issue tracker, as a verified library: every
decision the tracker makes once the rows it needs are read, each with a
contract that Verus proves.

- `src/domain/` — projects, cards and their changelog, boards, cycles, tags,
  templates, members and their access, workflows and their gates, comments,
  saved filters, agent sessions.
- `src/integrations/github/` — branch names, smart commits, webhook signatures
  and payloads, the meaning of GitHub's answers, the poll fallback's decisions.
- `src/rank.rs` — card ordering over `fractional_index`.
- `src/error.rs` — the error taxonomy and its RFC 7807 rendering.
- `src/text.rs` — the character-level building blocks the rules share.
- `app/` — the edges: the GitHub REST calls, the periodic job runner, the JSON
  shapes of the API, and the display of an estimate.
- `tests/` — scenarios on concrete values.

Timestamps and dates are carried as the text they are stored as, and an
estimate as the text its changelog shows.
