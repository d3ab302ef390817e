use vstd::prelude::*;

use crate::decimal::{append_int, dec_int, render_int};
use crate::window::Window;

verus! {

/// The index of the last row that the window covers among `total` rows; one
/// less than the first when it covers none.
pub open spec fn range_end(total: int, w: Window) -> int {
    let start = w.offset as int;
    let upper = match w.limit {
        Some(l) => if start + l - 1 < total - 1 {
            start + l - 1
        } else {
            total - 1
        },
        None => total - 1,
    };
    if upper < start - 1 {
        start - 1
    } else {
        upper
    }
}

pub open spec fn range_text(start: int, end: int, total: int) -> Seq<char> {
    "items "@ + dec_int(start) + "-"@ + dec_int(end) + "/"@ + dec_int(total)
}

/// The `Content-Range` value for a window of `total` rows; an empty result is
/// written `items 0-0/0`.
pub open spec fn content_range_text(total: int, w: Window) -> Seq<char> {
    if total == 0 {
        range_text(0, 0, 0)
    } else {
        range_text(w.offset as int, range_end(total, w), total)
    }
}

/// The response headers, by lower-case name, that describe a window of `total` rows.
pub open spec fn header_list(total: int, w: Window) -> Seq<(Seq<char>, Seq<char>)> {
    let base = seq![
        ("content-range"@, content_range_text(total, w)),
        ("access-control-expose-headers"@, "Content-Range"@),
        ("x-total-count"@, dec_int(total)),
    ];
    match w.limit {
        Some(l) => base + seq![
            ("x-page"@, dec_int(w.offset as int / l as int + 1)),
            ("x-per-page"@, dec_int(l as int)),
        ],
        None => base,
    }
}

pub open spec fn header_view(h: (String, String)) -> (Seq<char>, Seq<char>) {
    (h.0@, h.1@)
}

/// The `Content-Range` value for a window of `total_count` rows.
pub fn content_range(total_count: i64, window: &Window) -> (r: String)
    requires
        total_count >= 0,
        window.wf(),
    ensures
        r@ == content_range_text(total_count as int, *window),
{
    let total = total_count as i128;
    let (start, end): (i128, i128) = if total == 0 {
        (0, 0)
    } else {
        let start = window.offset;
        let upper = match window.limit {
            Some(l) => {
                let last_in_window = start + (l as i128) - 1;
                if last_in_window < total - 1 {
                    last_in_window
                } else {
                    total - 1
                }
            },
            None => total - 1,
        };
        (start, if upper < start - 1 {
            start - 1
        } else {
            upper
        })
    };
    proof {
        reveal_strlit("items ");
        reveal_strlit("-");
        reveal_strlit("/");
    }
    let mut out = String::from_str("items ");
    append_int(&mut out, start);
    out.append("-");
    append_int(&mut out, end);
    out.append("/");
    append_int(&mut out, total);
    out
}

/// The headers, by lower-case name, that describe the window and the count:
/// `content-range`, its exposure to cross-origin clients, `x-total-count`,
/// and, for a window with a limit, `x-page` and `x-per-page`.
pub fn pagination_headers(total_count: i64, window: &Window) -> (r: Vec<(String, String)>)
    requires
        total_count >= 0,
        window.wf(),
    ensures
        r@.map_values(|h: (String, String)| header_view(h)) == header_list(
            total_count as int,
            *window,
        ),
{
    let mut r: Vec<(String, String)> = Vec::new();
    r.push((String::from_str("content-range"), content_range(total_count, window)));
    r.push((String::from_str("access-control-expose-headers"), String::from_str("Content-Range")));
    r.push((String::from_str("x-total-count"), render_int(total_count as i128)));
    match window.limit {
        Some(l) => {
            r.push((String::from_str("x-page"), render_int(window.offset / (l as i128) + 1)));
            r.push((String::from_str("x-per-page"), render_int(l as i128)));
        },
        None => {},
    }
    assert(r@.map_values(|h: (String, String)| header_view(h)) =~= header_list(
        total_count as int,
        *window,
    ));
    r
}

} // verus!
