//! What the controller asks the chat transport to show.
//!
//! A screen is a text plus an ordered list of button labels; the transport
//! lays the labels out in rows of `row_width` (3 for menus, 1 for option
//! lists that read top to bottom). A reply may put a one-off notice, or an
//! image, in front of the screen.

use vstd::prelude::*;

verus! {

/// A prompt: text, button labels, and how many buttons go in one row.
pub struct Screen {
    pub text: String,
    pub buttons: Vec<String>,
    pub row_width: usize,
}

/// The mathematical shape of a screen.
pub ghost struct ScreenV {
    pub text: Seq<char>,
    pub buttons: Seq<Seq<char>>,
    pub row_width: int,
}

impl View for Screen {
    type V = ScreenV;

    open spec fn view(&self) -> ScreenV {
        ScreenV {
            text: self.text@,
            buttons: self.buttons@.map_values(|b: String| b@),
            row_width: self.row_width as int,
        }
    }
}

/// Everything one update answers with: an optional notice message, an
/// optional image, and the next screen.
pub struct Reply {
    pub notice: Option<String>,
    pub photo: Option<Vec<u8>>,
    pub screen: Screen,
}

pub ghost struct ReplyV {
    pub notice: Option<Seq<char>>,
    pub photo: Option<Seq<u8>>,
    pub screen: ScreenV,
}

impl View for Reply {
    type V = ReplyV;

    open spec fn view(&self) -> ReplyV {
        ReplyV {
            notice: match self.notice {
                Some(n) => Some(n@),
                None => None,
            },
            photo: match self.photo {
                Some(p) => Some(p@),
                None => None,
            },
            screen: self.screen@,
        }
    }
}

/// A plain screen as a reply: no notice, no image.
pub open spec fn screen_reply_v(s: ScreenV) -> ReplyV {
    ReplyV { notice: None, photo: None, screen: s }
}

/// The rows a list of labels is laid out in: full rows of `width`, and
/// whatever remains as the last row.
pub open spec fn spec_chunk_rows(labels: Seq<Seq<char>>, width: int) -> Seq<Seq<Seq<char>>>
    decreases labels.len(),
{
    if labels.len() == 0 {
        Seq::empty()
    } else if width < 1 || labels.len() <= width {
        seq![labels]
    } else {
        seq![labels.subrange(0, width)] + spec_chunk_rows(
            labels.skip(width),
            width,
        )
    }
}

/// Lay button labels out in rows of `width`; every label appears once, in
/// order, and only the last row may run short.
pub fn chunk_rows(labels: &Vec<String>, width: usize) -> (r: Vec<Vec<String>>)
    requires
        width >= 1,
    ensures
        r@.map_values(|row: Vec<String>| row@.map_values(|b: String| b@)) == spec_chunk_rows(
            labels@.map_values(|b: String| b@),
            width as int,
        ),
{
    let ghost all = labels@.map_values(|b: String| b@);
    let n = labels.len();
    let mut out: Vec<Vec<String>> = Vec::new();
    let mut i: usize = 0;
    proof {
        assert(all.skip(0) =~= all);
        assert(out@.map_values(|row: Vec<String>| row@.map_values(|b: String| b@))
            + spec_chunk_rows(all.skip(0), width as int) =~= spec_chunk_rows(all, width as int));
    }
    while i < n
        invariant
            width >= 1,
            n == labels@.len(),
            all == labels@.map_values(|b: String| b@),
            i <= n,
            out@.map_values(|row: Vec<String>| row@.map_values(|b: String| b@))
                + spec_chunk_rows(all.skip(i as int), width as int) == spec_chunk_rows(
                all,
                width as int,
            ),
        decreases n - i,
    {
        let end = if n - i < width {
            n
        } else {
            i + width
        };
        let mut row: Vec<String> = Vec::new();
        let mut k = i;
        while k < end
            invariant
                i <= k <= end <= n,
                n == labels@.len(),
                all == labels@.map_values(|b: String| b@),
                row@.map_values(|b: String| b@) == all.subrange(i as int, k as int),
            decreases end - k,
        {
            row.push(labels[k].clone());
            proof {
                assert(all.subrange(i as int, k + 1).drop_last() =~= all.subrange(
                    i as int,
                    k as int,
                ));
                assert(all.subrange(i as int, k + 1).last() == all[k as int]);
                assert(row@.map_values(|b: String| b@) =~= all.subrange(i as int, k + 1));
            }
            k = k + 1;
        }
        out.push(row);
        proof {
            let rest = all.skip(i as int);
            assert(rest.len() == n - i);
            if n - i <= width {
                assert(all.subrange(i as int, end as int) =~= rest);
                assert(spec_chunk_rows(rest, width as int) =~= seq![rest]);
            } else {
                assert(all.subrange(i as int, end as int) =~= rest.subrange(0, width as int));
                assert(rest.skip(width as int) =~= all.skip(end as int));
            }
            assert(out@.map_values(|r2: Vec<String>| r2@.map_values(|b: String| b@))
                + spec_chunk_rows(all.skip(end as int), width as int) =~= spec_chunk_rows(
                all,
                width as int,
            ));
        }
        i = end;
    }
    proof {
        assert(all.skip(n as int) =~= Seq::<Seq<char>>::empty());
        assert(out@.map_values(|row: Vec<String>| row@.map_values(|b: String| b@))
            =~= spec_chunk_rows(all, width as int));
    }
    out
}

} // verus!
