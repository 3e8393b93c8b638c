//! The scraping pool: the games whose marquee is still to be fetched, one
//! per line, and the choice of the marquee among a game's media.

use vstd::prelude::*;
use crate::text::{
    chars_of, lemma_split_nonempty, push_text, rows, same_text, split_chars, split_on, string_of,
};

verus! {

/// A game waiting in the pool.
#[derive(Clone, Debug)]
pub struct ScrapEntry {
    pub system_name: String,
    pub game_title: String,
    pub game_name: String,
    pub marquee_path: String,
    pub full_marquee_path: String,
    pub rom_path: String,
}

impl View for ScrapEntry {
    type V = Seq<Seq<char>>;

    /// The six fields, in the order in which a line of the pool gives them.
    open spec fn view(&self) -> Seq<Seq<char>> {
        seq![
            self.system_name@,
            self.game_title@,
            self.game_name@,
            self.marquee_path@,
            self.full_marquee_path@,
            self.rom_path@,
        ]
    }
}

/// One of the media that the scraping service lists for a game.
#[derive(Clone, Debug)]
pub struct Media {
    pub media_type: String,
    pub url: String,
}

/// `line` without a carriage return at its end.
pub open spec fn without_cr(line: Seq<char>) -> Seq<char> {
    if line.len() > 0 && line.last() == '\r' {
        line.drop_last()
    } else {
        line
    }
}

/// The lines of a text.  A line ends at a line feed, and a carriage return
/// just before the line feed belongs to the line ending.  What follows the
/// last line feed is a line too unless it is empty.
pub open spec fn lines_of(s: Seq<char>) -> Seq<Seq<char>> {
    let pieces = split_on(s, '\n');
    let ended = pieces.drop_last().map_values(|l: Seq<char>| without_cr(l));
    if pieces.last().len() == 0 {
        ended
    } else {
        ended.push(pieces.last())
    }
}

/// The entries that the lines give, in order: a line of exactly six fields
/// between bars is an entry, any other line is passed over.
pub open spec fn entries_of(lines: Seq<Seq<char>>) -> Seq<Seq<Seq<char>>>
    decreases lines.len(),
{
    if lines.len() == 0 {
        Seq::<Seq<Seq<char>>>::empty()
    } else {
        let earlier = entries_of(lines.drop_last());
        let fields = split_on(lines.last(), '|');
        if fields.len() == 6 {
            earlier.push(fields)
        } else {
            earlier
        }
    }
}

/// What each of a sequence of entries holds.
pub open spec fn entry_fields(entries: Seq<ScrapEntry>) -> Seq<Seq<Seq<char>>> {
    entries.map_values(|e: ScrapEntry| e@)
}

/// The lines of a text.
pub fn lines(content: &str) -> (out: Vec<Vec<char>>)
    ensures
        rows(out@) == lines_of(content@),
{
    let chars = chars_of(content);
    let pieces = split_chars(&chars, '\n');
    let ghost all = rows(pieces@);
    proof {
        lemma_split_nonempty(content@, '\n');
    }
    let n = pieces.len();
    let mut out: Vec<Vec<char>> = Vec::new();
    let mut i: usize = 0;
    proof {
        assert(rows(out@) =~= all.drop_last().map_values(|l: Seq<char>| without_cr(l)).take(0));
    }
    while i + 1 < n
        invariant
            n == pieces.len(),
            n >= 1,
            i + 1 <= n,
            all == rows(pieces@),
            rows(out@) == all.drop_last().map_values(|l: Seq<char>| without_cr(l)).take(i as int),
        decreases n - i,
    {
        let piece = &pieces[i];
        let mut line: Vec<char> = Vec::new();
        let keep: usize = if piece.len() > 0 && piece[piece.len() - 1] == '\r' {
            piece.len() - 1
        } else {
            piece.len()
        };
        let mut k: usize = 0;
        while k < keep
            invariant
                k <= keep <= piece.len(),
                line@ == piece@.take(k as int),
            decreases keep - k,
        {
            line.push(piece[k]);
            k += 1;
            proof {
                assert(line@ =~= piece@.take(k as int));
            }
        }
        let ghost before = rows(out@);
        out.push(line);
        proof {
            assert(piece@.take(keep as int) =~= without_cr(piece@));
            assert(all.drop_last()[i as int] == piece@);
            assert(rows(out@) =~= before.push(without_cr(piece@)));
            assert(rows(out@) =~= all.drop_last().map_values(|l: Seq<char>| without_cr(l)).take(
                i + 1,
            ));
        }
        i += 1;
    }
    proof {
        let ended = all.drop_last().map_values(|l: Seq<char>| without_cr(l));
        assert(ended.take(n - 1) =~= ended);
        assert(all.last() == pieces@[n - 1]@);
    }
    if pieces[n - 1].len() > 0 {
        let ghost before = rows(out@);
        out.push(pieces[n - 1].clone());
        proof {
            assert(rows(out@) =~= before.push(pieces@[n - 1]@));
        }
    }
    out
}

/// The entries of the pool, in the order of its lines.
pub fn pool_entries(content: &str) -> (entries: Vec<ScrapEntry>)
    ensures
        entry_fields(entries@) == entries_of(lines_of(content@)),
{
    let all = lines(content);
    let ghost texts = rows(all@);
    let mut entries: Vec<ScrapEntry> = Vec::new();
    let mut i: usize = 0;
    proof {
        assert(texts.take(0) =~= Seq::<Seq<char>>::empty());
        assert(entry_fields(entries@) =~= entries_of(texts.take(0)));
    }
    while i < all.len()
        invariant
            i <= all.len(),
            texts == rows(all@),
            entry_fields(entries@) == entries_of(texts.take(i as int)),
        decreases all.len() - i,
    {
        let parts = split_chars(&all[i], '|');
        proof {
            assert(texts.take(i + 1).drop_last() =~= texts.take(i as int));
            assert(texts.take(i + 1).last() == all@[i as int]@);
        }
        if parts.len() == 6 {
            let ghost before = entry_fields(entries@);
            let entry = ScrapEntry {
                system_name: string_of(&parts[0]),
                game_title: string_of(&parts[1]),
                game_name: string_of(&parts[2]),
                marquee_path: string_of(&parts[3]),
                full_marquee_path: string_of(&parts[4]),
                rom_path: string_of(&parts[5]),
            };
            proof {
                assert(entry@ =~= rows(parts@));
            }
            entries.push(entry);
            proof {
                assert(entry_fields(entries@) =~= before.push(rows(parts@)));
            }
        }
        i += 1;
    }
    proof {
        assert(texts.take(all.len() as int) =~= texts);
    }
    entries
}

/// The address under which the scraping service is asked about a game.
pub fn game_info_url(game_name: &str) -> (url: String)
    ensures
        url@
            == "https://www.screenscraper.fr/api2/jeuInfos.php?devid=YOUR_DEV_ID&devpassword=YOUR_DEV_PASS&softname=MarqueeManager&output=json&romnom="@
            + game_name@ + "&systemeid=0"@,
{
    let mut out = chars_of(
        "https://www.screenscraper.fr/api2/jeuInfos.php?devid=YOUR_DEV_ID&devpassword=YOUR_DEV_PASS&softname=MarqueeManager&output=json&romnom=",
    );
    push_text(&mut out, game_name);
    push_text(&mut out, "&systemeid=0");
    string_of(&out)
}

/// The position of the first of the media whose type is `marquee`.
pub fn find_marquee_media(medias: &Vec<Media>) -> (found: Option<usize>)
    ensures
        match found {
            Some(i) => i < medias@.len() && medias@[i as int].media_type@ == "marquee"@
                && forall|j: int| 0 <= j < i ==> medias@[j].media_type@ != "marquee"@,
            None => forall|j: int|
                0 <= j < medias@.len() ==> medias@[j].media_type@ != "marquee"@,
        },
{
    let mut i: usize = 0;
    while i < medias.len()
        invariant
            i <= medias.len(),
            forall|j: int| 0 <= j < i ==> medias@[j].media_type@ != "marquee"@,
        decreases medias.len() - i,
    {
        if same_text(medias[i].media_type.as_str(), "marquee") {
            return Some(i);
        }
        i += 1;
    }
    None
}

} // verus!
