# member_club

The verified core of a single-machine membership desk for a sports-goods
store: members, points earned by purchases, gifts redeemed for points, the
store settings, backups, and the import of records from a legacy system
through a JSON migration file.

- `src/` — the library, verified with Verus. Each module states its
  behaviour in `requires`/`ensures` over spec functions:
  - `text`, `numtext`, `floatbits` — trimming, integer text, `f64` sign tests
    on raw bits;
  - `members`, `gifts`, `points` — the member form, gift records, purchases
    and redemptions, with their refusals;
  - `settings`, `config`, `paths` — the settings table, the configuration
    file and portable paths;
  - `bundle_check`, `precheck`, `import_plan`, `keymap` — checking a
    migration file, its fingerprint, and what importing each record writes;
  - `calendar`, `clock`, `digest`, `name_pinyin` — months and time stamps
    (chrono), SHA-256 (sha2), pinyin spellings (pinyin), UUIDs (uuid),
    each behind a small trusted wrapper whose contract is documented.
- `tests/` — tests of the library on concrete values.
- `app/` — the Tauri application: SQLite through rusqlite, files, JSON through
  serde, and the commands the front end invokes. The rules and refusals are
  the library's; `app/` reads and writes, parses the ids stored in the
  migration entity map, and computes the floating-point points of a purchase.
