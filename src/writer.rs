//! The document: channels, sample rows, a comment and a creation time, and
//! its text.
use crate::clock::{clock_text, current_utc, date_text, year_text, DateTime};
use crate::error::Error;
use crate::text::append_padded;
use crate::types::{Channel, ChannelName};
use crate::values::{value_text, ChannelValue};
use vstd::prelude::*;
use vstd::string::*;

verus! {

/// `File created on DD/MM/YYYY at HH:MM:SS` and a blank line.
pub open spec fn created_text(t: DateTime) -> Seq<char> {
    "File created on "@ + date_text(t) + " at "@ + clock_text(t) + "\n\n"@
}

/// One header line per channel, in order.
pub open spec fn header_lines(cs: Seq<Channel>) -> Seq<char>
    decreases cs.len(),
{
    if cs.len() == 0 {
        Seq::empty()
    } else {
        header_lines(cs.drop_last()) + cs.last().text() + seq!['\n']
    }
}

/// Each channel's name followed by a space, in order.
pub open spec fn column_names(cs: Seq<Channel>) -> Seq<char>
    decreases cs.len(),
{
    if cs.len() == 0 {
        Seq::empty()
    } else {
        column_names(cs.drop_last()) + cs.last().name.text() + seq![' ']
    }
}

/// Each value's text followed by a space, in order.
pub open spec fn row_text(vs: Seq<ChannelValue>) -> Seq<char>
    decreases vs.len(),
{
    if vs.len() == 0 {
        Seq::empty()
    } else {
        row_text(vs.drop_last()) + value_text(vs.last()) + seq![' ']
    }
}

/// One line per row, in order.
pub open spec fn rows_text(rs: Seq<Seq<ChannelValue>>) -> Seq<char>
    decreases rs.len(),
{
    if rs.len() == 0 {
        Seq::empty()
    } else {
        rows_text(rs.drop_last()) + row_text(rs.last()) + seq!['\n']
    }
}

/// The comment section, present only where a comment is set.
pub open spec fn comment_section(comment: Option<Seq<char>>) -> Seq<char> {
    match comment {
        Some(c) => "[comments]\n"@ + c + "\n\n"@,
        None => Seq::empty(),
    }
}

/// The whole document created at `t`.
pub open spec fn document_text(
    cs: Seq<Channel>,
    comment: Option<Seq<char>>,
    rs: Seq<Seq<ChannelValue>>,
    t: DateTime,
) -> Seq<char> {
    created_text(t) + "[header]\n"@ + header_lines(cs) + "\n"@ + comment_section(comment)
        + "[column names]\n"@ + column_names(cs) + "\n\n"@ + "[data]\n"@ + rows_text(rs)
        + "\n"@
}

/// No two channels with the same name.
pub open spec fn unique_names(cs: Seq<Channel>) -> bool {
    forall|i: int, j: int|
        0 <= i < cs.len() && 0 <= j < cs.len() && i != j ==> !cs[i].name.same(&cs[j].name)
}

/// Whether a channel of the sequence has that name.
pub open spec fn has_name(cs: Seq<Channel>, n: ChannelName) -> bool {
    exists|i: int| 0 <= i < cs.len() && #[trigger] cs[i].name.same(&n)
}

/// Once a channel is appended, its name is taken: a second channel of that
/// name is refused.
pub proof fn lemma_added_name_taken(cs: Seq<Channel>, c: Channel)
    ensures
        has_name(cs.push(c), c.name),
{
    assert(cs.push(c)[cs.len() as int].name.same(&c.name));
}

/// A document being built: channels with distinct names, sample rows, an
/// optional comment and an optional creation time.
pub struct Writer {
    file_creation_time: Option<DateTime>,
    comment: Option<String>,
    channels: Vec<Channel>,
    samples: Vec<Vec<ChannelValue>>,
}

fn append_year(out: &mut String, y: i32)
    ensures
        final(out)@ == old(out)@ + year_text(y as int),
{
    proof {
        reveal_strlit("-");
        reveal_strlit("+");
    }
    if y < 0 {
        out.append("-");
    } else if y >= 10_000 {
        out.append("+");
    }
    let m: u64 = if y < 0 {
        (-(y as i64)) as u64
    } else {
        y as u64
    };
    append_padded(out, m, 4);
    assert(final(out)@ =~= old(out)@ + year_text(y as int));
}

fn append_date(out: &mut String, t: &DateTime)
    ensures
        final(out)@ == old(out)@ + date_text(*t),
{
    proof {
        reveal_strlit("/");
    }
    append_padded(out, t.day as u64, 2);
    out.append("/");
    append_padded(out, t.month as u64, 2);
    out.append("/");
    append_year(out, t.year);
    assert(final(out)@ =~= old(out)@ + date_text(*t));
}

fn append_clock(out: &mut String, t: &DateTime)
    ensures
        final(out)@ == old(out)@ + clock_text(*t),
{
    proof {
        reveal_strlit(":");
    }
    append_padded(out, t.hour as u64, 2);
    out.append(":");
    append_padded(out, t.minute as u64, 2);
    out.append(":");
    append_padded(out, t.second as u64, 2);
    assert(final(out)@ =~= old(out)@ + clock_text(*t));
}

fn append_created(out: &mut String, t: &DateTime)
    ensures
        final(out)@ == old(out)@ + created_text(*t),
{
    out.append("File created on ");
    append_date(out, t);
    out.append(" at ");
    append_clock(out, t);
    out.append("\n\n");
    assert(final(out)@ =~= old(out)@ + created_text(*t));
}

fn append_row(out: &mut String, row: &Vec<ChannelValue>)
    ensures
        final(out)@ == old(out)@ + row_text(row@),
{
    let ghost start = out@;
    let mut i: usize = 0;
    while i < row.len()
        invariant
            i <= row@.len(),
            out@ == start + row_text(row@.subrange(0, i as int)),
        decreases row@.len() - i,
    {
        row[i].append_to(out);
        proof {
            reveal_strlit(" ");
        }
        out.append(" ");
        proof {
            let sub = row@.subrange(0, i + 1);
            assert(sub.drop_last() =~= row@.subrange(0, i as int));
        }
        i = i + 1;
    }
    assert(row@.subrange(0, row@.len() as int) =~= row@);
}

impl Writer {
    pub closed spec fn creation_time(&self) -> Option<DateTime> {
        self.file_creation_time
    }

    pub closed spec fn comment(&self) -> Option<Seq<char>> {
        match self.comment {
            Some(c) => Some(c@),
            None => None,
        }
    }

    pub closed spec fn channels(&self) -> Seq<Channel> {
        self.channels@
    }

    pub closed spec fn samples(&self) -> Seq<Seq<ChannelValue>> {
        self.samples@.map_values(|r: Vec<ChannelValue>| r@)
    }

    /// Channel names are distinct.
    pub open spec fn wf(&self) -> bool {
        unique_names(self.channels())
    }

    /// The text of the document, taking `now` where no creation time is set.
    pub open spec fn text_at(&self, now: DateTime) -> Seq<char> {
        document_text(
            self.channels(),
            self.comment(),
            self.samples(),
            match self.creation_time() {
                Some(t) => t,
                None => now,
            },
        )
    }

    /// An empty document.
    pub fn new() -> (r: Writer)
        ensures
            r.wf(),
            r.creation_time() is None,
            r.comment() is None,
            r.channels() == Seq::<Channel>::empty(),
            r.samples() == Seq::<Seq<ChannelValue>>::empty(),
    {
        let r = Writer {
            file_creation_time: None,
            comment: None,
            channels: Vec::new(),
            samples: Vec::new(),
        };
        assert(r.samples() =~= Seq::<Seq<ChannelValue>>::empty());
        r
    }

    pub fn set_file_creation_time(&mut self, time: DateTime)
        ensures
            final(self).creation_time() == Some(time),
            final(self).comment() == old(self).comment(),
            final(self).channels() == old(self).channels(),
            final(self).samples() == old(self).samples(),
    {
        self.file_creation_time = Some(time);
    }

    pub fn set_comment(&mut self, comment: String)
        ensures
            final(self).comment() == Some(comment@),
            final(self).creation_time() == old(self).creation_time(),
            final(self).channels() == old(self).channels(),
            final(self).samples() == old(self).samples(),
    {
        self.comment = Some(comment);
    }

    /// Appends `new` after the channels, unless one of them has its name: the
    /// document is then unchanged and the name comes back in the error.
    pub fn add_channel(&mut self, new: Channel) -> (r: Result<(), Error>)
        ensures
            r is Err <==> has_name(old(self).channels(), new.name),
            r is Err ==> r == Err::<(), Error>(Error::DuplicateChannel(new.name)),
            r is Err ==> final(self).channels() == old(self).channels(),
            r is Ok ==> final(self).channels() == old(self).channels().push(new),
            old(self).wf() ==> final(self).wf(),
            final(self).creation_time() == old(self).creation_time(),
            final(self).comment() == old(self).comment(),
            final(self).samples() == old(self).samples(),
    {
        let mut i: usize = 0;
        while i < self.channels.len()
            invariant
                0 <= i <= self.channels@.len(),
                forall|k: int| 0 <= k < i ==> !(#[trigger] self.channels@[k]).name.same(&new.name),
            decreases self.channels@.len() - i,
        {
            if self.channels[i].name == new.name {
                return Err(Error::DuplicateChannel(new.name));
            }
            i = i + 1;
        }
        self.channels.push(new);
        proof {
            let cs = self.channels@;
            assert forall|a: int, b: int|
                0 <= a < cs.len() && 0 <= b < cs.len() && a != b && old(self).wf() implies !cs[a].name.same(
                &cs[b].name,
            ) by {
                if a == cs.len() - 1 {
                    assert(!cs[b].name.same(&new.name));
                } else if b == cs.len() - 1 {
                    assert(!cs[a].name.same(&new.name));
                }
            }
        }
        Ok(())
    }

    /// Appends a sample row; its values are not checked against the channels.
    pub fn add_samples(&mut self, line: Vec<ChannelValue>)
        ensures
            final(self).samples() == old(self).samples().push(line@),
            final(self).creation_time() == old(self).creation_time(),
            final(self).comment() == old(self).comment(),
            final(self).channels() == old(self).channels(),
    {
        self.samples.push(line);
        assert(self.samples() =~= old(self).samples().push(line@));
    }

    /// The text of the document, created at `now` where no creation time is
    /// set.
    pub fn text_with_time(&self, now: &DateTime) -> (r: String)
        ensures
            r@ == self.text_at(*now),
    {
        let mut out = String::new();
        let t = match &self.file_creation_time {
            Some(t) => t,
            None => now,
        };
        append_created(&mut out, t);
        out.append("[header]\n");
        let cs = &self.channels;
        let ghost base = out@;
        let mut i: usize = 0;
        while i < cs.len()
            invariant
                i <= cs@.len(),
                out@ == base + header_lines(cs@.subrange(0, i as int)),
            decreases cs@.len() - i,
        {
            cs[i].append_to(&mut out);
            proof {
                reveal_strlit("\n");
            }
            out.append("\n");
            proof {
                assert(cs@.subrange(0, i + 1).drop_last() =~= cs@.subrange(0, i as int));
            }
            i = i + 1;
        }
        assert(cs@.subrange(0, cs@.len() as int) =~= cs@);
        out.append("\n");
        match &self.comment {
            Some(c) => {
                out.append("[comments]\n");
                out.append(c.as_str());
                out.append("\n\n");
            },
            None => {},
        }
        out.append("[column names]\n");
        let ghost base2 = out@;
        let mut j: usize = 0;
        while j < cs.len()
            invariant
                j <= cs@.len(),
                out@ == base2 + column_names(cs@.subrange(0, j as int)),
            decreases cs@.len() - j,
        {
            out.append(cs[j].name.as_str());
            proof {
                reveal_strlit(" ");
            }
            out.append(" ");
            proof {
                assert(cs@.subrange(0, j + 1).drop_last() =~= cs@.subrange(0, j as int));
            }
            j = j + 1;
        }
        out.append("\n\n");
        out.append("[data]\n");
        let rows = &self.samples;
        let ghost base3 = out@;
        let mut k: usize = 0;
        while k < rows.len()
            invariant
                k <= rows@.len(),
                out@ == base3 + rows_text(self.samples().subrange(0, k as int)),
                self.samples() == rows@.map_values(|r: Vec<ChannelValue>| r@),
            decreases rows@.len() - k,
        {
            append_row(&mut out, &rows[k]);
            proof {
                reveal_strlit("\n");
            }
            out.append("\n");
            proof {
                assert(self.samples().subrange(0, k + 1).drop_last() =~= self.samples().subrange(
                    0,
                    k as int,
                ));
            }
            k = k + 1;
        }
        assert(self.samples().subrange(0, rows@.len() as int) =~= self.samples());
        out.append("\n");
        assert(out@ =~= self.text_at(*now));
        out
    }

    /// The text of the document, created at the current UTC time where no
    /// creation time is set.
    pub fn to_text(&self) -> (r: String)
        ensures
            self.creation_time() is Some ==> r@ == self.text_at(self.creation_time()->0),
            self.creation_time() is None ==> exists|now: DateTime|
                now.wf() && r@ == self.text_at(now),
    {
        match &self.file_creation_time {
            Some(t) => {
                self.text_with_time(t)
            },
            None => {
                let now = current_utc();
                self.text_with_time(&now)
            },
        }
    }
}

} // verus!
