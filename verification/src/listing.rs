//! Parsing the output of the native "list current mounts" command into
//! structured records.

use vstd::prelude::*;
use crate::platform::Platform;
use crate::command::CommandResult;
use crate::text::{
    chars_vec,
    contains_chars,
    spec_contains,
    spec_lines,
    spec_split_whitespace,
    split_lines_chars,
    split_whitespace_chars,
    string_from_chars,
    views,
};

verus! {

/// One currently mounted share, as reported by the native listing command.
#[derive(Debug)]
pub struct MountRecord {
    pub server: String,
    pub mountpoint: String,
}

/// The record a single output line yields, if any.
///
/// On Windows a line counts only when it holds the marker naming an SMB
/// network connection; the mount target is its first column and the server
/// its third.  (The marker text is locale-dependent in real `net use`
/// output; that is a known limitation of the column convention reproduced
/// here.)  On Unix-like systems a line counts only when it names a `cifs` or
/// `smbfs` mount; the server is its first column and the mount target its
/// third.  Lines with fewer than three columns are skipped.
pub open spec fn spec_line_record(platform: Platform, line: Seq<char>) -> Option<
    (Seq<char>, Seq<char>),
> {
    let tokens = spec_split_whitespace(line);
    match platform {
        Platform::Windows => {
            if spec_contains(line, "Microsoft Windows Network"@) && tokens.len() >= 3 {
                Some((tokens[2], tokens[0]))
            } else {
                None
            }
        },
        _ => {
            if (spec_contains(line, "type cifs"@) || spec_contains(line, "type smbfs"@))
                && tokens.len() >= 3 {
                Some((tokens[0], tokens[2]))
            } else {
                None
            }
        },
    }
}

/// The records of a sequence of lines, in order, skipping lines that yield
/// none.
pub open spec fn spec_records_of_lines(platform: Platform, lines: Seq<Seq<char>>) -> Seq<
    (Seq<char>, Seq<char>),
>
    decreases lines.len(),
{
    if lines.len() == 0 {
        Seq::empty()
    } else {
        let rest = spec_records_of_lines(platform, lines.skip(1));
        match spec_line_record(platform, lines[0]) {
            Some(r) => seq![r] + rest,
            None => rest,
        }
    }
}

/// The `(server, mountpoint)` pairs the raw listing output describes.
pub open spec fn spec_parse_mount_list(platform: Platform, raw: Seq<char>) -> Seq<
    (Seq<char>, Seq<char>),
> {
    spec_records_of_lines(platform, spec_lines(raw))
}

/// Parses already-captured output of the native listing command.  Lenient by
/// design: lines that do not match yield no record rather than an error, so
/// the result may be empty but parsing never fails.
pub fn parse_mount_list(platform: Platform, raw: &str) -> (r: Vec<MountRecord>)
    ensures
        r@.len() == spec_parse_mount_list(platform, raw@).len(),
        forall|i: int|
            0 <= i < r@.len() ==> #[trigger] r@[i].server@ == spec_parse_mount_list(
                platform,
                raw@,
            )[i].0 && r@[i].mountpoint@ == spec_parse_mount_list(platform, raw@)[i].1,
{
    let cs = chars_vec(raw);
    let lines = split_lines_chars(&cs);
    let marker_windows = chars_vec("Microsoft Windows Network");
    let marker_cifs = chars_vec("type cifs");
    let marker_smbfs = chars_vec("type smbfs");
    let n = lines.len();
    let ghost line_views = views(lines@);
    let ghost total = spec_records_of_lines(platform, line_views);
    let mut records: Vec<MountRecord> = Vec::new();
    let mut i: usize = 0;
    proof {
        assert(line_views.skip(0) =~= line_views);
        assert(record_views(records@) + total =~= total);
    }
    while i < n
        invariant
            n == lines@.len(),
            line_views == views(lines@),
            total == spec_records_of_lines(platform, line_views),
            marker_windows@ == "Microsoft Windows Network"@,
            marker_cifs@ == "type cifs"@,
            marker_smbfs@ == "type smbfs"@,
            i <= n,
            total == record_views(records@) + spec_records_of_lines(
                platform,
                line_views.skip(i as int),
            ),
        decreases n - i,
    {
        let line = &lines[i];
        let matches_marker = if platform == Platform::Windows {
            contains_chars(line, &marker_windows)
        } else {
            contains_chars(line, &marker_cifs) || contains_chars(line, &marker_smbfs)
        };
        let ghost t = line_views.skip(i as int);
        proof {
            assert(t[0] == line_views[i as int]);
            assert(t.skip(1) =~= line_views.skip(i + 1));
        }
        if matches_marker {
            let tokens = split_whitespace_chars(line);
            if tokens.len() >= 3 {
                let server = string_from_chars(&tokens[0]);
                let mountpoint_first = string_from_chars(&tokens[2]);
                let rec = if platform == Platform::Windows {
                    MountRecord { server: mountpoint_first, mountpoint: server }
                } else {
                    MountRecord { server, mountpoint: mountpoint_first }
                };
                proof {
                    let entry = spec_line_record(platform, line_views[i as int])->0;
                    assert(rec.server@ == entry.0 && rec.mountpoint@ == entry.1);
                    assert(record_views(records@.push(rec)) =~= record_views(records@).push(
                        (rec.server@, rec.mountpoint@),
                    ));
                    assert(record_views(records@).push((rec.server@, rec.mountpoint@))
                        + spec_records_of_lines(platform, line_views.skip(i + 1)) =~= record_views(
                        records@,
                    ) + (seq![(rec.server@, rec.mountpoint@)] + spec_records_of_lines(
                        platform,
                        line_views.skip(i + 1),
                    )));
                }
                records.push(rec);
            } else {
                proof {
                    assert(spec_line_record(platform, line_views[i as int]) is None);
                }
            }
        } else {
            proof {
                assert(spec_line_record(platform, line_views[i as int]) is None);
            }
        }
        i = i + 1;
    }
    proof {
        assert(line_views.skip(n as int) =~= Seq::<Seq<char>>::empty());
        assert(record_views(records@) + Seq::<(Seq<char>, Seq<char>)>::empty() =~= record_views(
            records@,
        ));
        assert forall|k: int| 0 <= k < records@.len() implies #[trigger] records@[k].server@
            == total[k].0 && records@[k].mountpoint@ == total[k].1 by {
            assert(record_views(records@)[k] == (records@[k].server@, records@[k].mountpoint@));
        }
    }
    records
}

/// The `(server, mountpoint)` views of a sequence of records.
pub open spec fn record_views(records: Seq<MountRecord>) -> Seq<(Seq<char>, Seq<char>)> {
    records.map_values(|r: MountRecord| (r.server@, r.mountpoint@))
}

/// What a finished listing command means: success yields the parsed records,
/// failure surfaces the native tool's stderr verbatim.
pub fn list_outcome(platform: Platform, result: &CommandResult) -> (r: Result<
    Vec<MountRecord>,
    String,
>)
    ensures
        result.exit_success ==> (r matches Ok(records) && record_views(records@)
            == spec_parse_mount_list(platform, result.stdout@)),
        !result.exit_success ==> (r matches Err(e) && e@ == result.stderr@),
{
    if result.exit_success {
        let records = parse_mount_list(platform, result.stdout.as_str());
        proof {
            assert(record_views(records@) =~= spec_parse_mount_list(platform, result.stdout@));
        }
        Ok(records)
    } else {
        Err(result.stderr.clone())
    }
}

} // verus!
