# tsumugi

A tool for country IP lists: it reads a sing-box rule-set (`.srs`) or a
*ray `geoip.dat`, and generates nftables or iproute2 scripts from the blocks
of a country, converts between the two formats, or writes systemd units that
keep the rules in place.

- `src/` is the library, with its contracts proved: the text of addresses and
  CIDR blocks (dotted decimal, RFC 5952), the scripts and units, the
  conversion into rule-set records and geoip lists, the selection of a
  country's blocks, the download retry policy and the plan of a run.
- `app/` is the command: argument parsing (clap), downloads (curl), files,
  the protobuf codec of `geoip.dat` (prost), the rule-set codec (a C
  library), and the lookup of `nft` and `ip` (which).
- `tests/` runs the library on concrete values.
