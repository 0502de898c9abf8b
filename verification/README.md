# musicbot_remote

The decision logic of a Discord music bot's web remote — the browser page
where a server's members queue songs, vote, chat and control playback, and
where its managers edit the server's settings — written in Verus. Every
function in `src/` carries a contract that Verus proves: who may do what,
in which order a request is refused and with which sentence, what a
settings request stores, how a skip vote counts, what the watcher sends.

## Layout

- `src/` — the verified library.
  - Requests and people: `gatekeeper` (the order of request checks and a
    member's tier), `access` (permission checks, suspensions, refusals),
    `permissions` and `roles` (rules and role lists per permission),
    `audience`, `preview` and `capabilities` (who a rule lets through),
    `auth` and `oauth` (sign-in settings, Discord sign-in steps, sessions),
    `web` (safe redirects, origins, CSRF, cookies, percent-encoding, tags).
  - Playback and the queue: `control`, `skipvote` and `quorum` (controls and
    skip votes), `voting` and `scoring` (song votes, points, the dislike
    threshold), `enqueue`, `queue` and `queue_edit` (adding, bulk adding,
    removing, pinning, paging), `playlists`, `voice`, `presence`, `watcher`,
    `public_feed` (what visitors without sign-in may see).
  - Talk and moderation: `chat`, `mention`, `moderation`, `catalog`
    (charts, the activity log filter, role-id lists, events).
  - Settings: `locks` (owner-locked keys), `settings_edit` (the admin console's sections and the older
    whole-settings form).
  - Text: `pages` (HTML pages and the script screens' shell), `lyrics` (LRC lines), `text` and `sorting`.
  - `clock` declares `Instant` and the three clock calls the library makes;
    `web` calls SHA-256 from `sha2` for response tags.
- `tests/` — tests of the library as a user of it sees it.
- `app/` — what stays outside the proofs: the start-up clock, the sign-in
  settings file, JSON shapes of the library's types, response helpers, the
  script screens' bootstrap values, and the float readings of playback
  controls.

## What the library leaves out

Some of the settings console's keys are not modelled: `sortMode`,
`autoplayMode`, `autoplayPolicy`, `nowPlayingMode` and
`disabledCommandGroups`. Their value types (the queue sort modes, autoplay
modes and policies, now-playing modes and the bot's command groups) belong
to parts of the bot that are not in this repository, so a save neither
checks nor stores them. The same holds for expanding legacy role settings
and the final clean-up of a saved settings value. Owner locks are checked
(`locks`) over the locked keys, labels and values the caller passes in.
The cache-key spellings of the YouTube Music and SoundCloud providers
(`youtubemusic`, `soundcloud`) follow the YouTube one (`youtube`).
