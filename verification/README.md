# bahai_date

Badí' (Bahá'í) calendar logic for a command-line date converter, verified
with Verus.

- `src/calendar.rs`: months, valid dates, the next Nineteen Day Feast,
  Ayyám-i-Há countdowns, reading dates from the command line.
- `src/cycles.rs`: Váḥid and Kull-i-S͟hay arithmetic and its laws.
- `src/holy_days.rs`: the eleven Holy Days, their emoji, names and times.
- `src/listing.rs`: a year's holy days in date order (a stable sort) with
  their dates.
- `src/notes.rs`: what is noted under a date, and the next holy day.
- `src/text.rs`: month emoji, view and countdown names, time-zone names,
  progress bars.
- `src/badi_calls.rs`: the trusted calls into the `badi_date` crate.
- `app/main.rs`: argument parsing, clock, time zones, sunset-based
  conversions and printing.
