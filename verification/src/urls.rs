//! Reading a list of URLs out of the text of a file: one URL on a line.

use vstd::prelude::*;

verus! {

/// Whether `c` is white space as Unicode defines it (the property
/// `White_Space`), which is what trimming removes.
pub open spec fn is_whitespace(c: char) -> bool {
    let n = c as u32;
    ||| 0x09 <= n <= 0x0D
    ||| n == 0x20
    ||| n == 0x85
    ||| n == 0xA0
    ||| n == 0x1680
    ||| 0x2000 <= n <= 0x200A
    ||| n == 0x2028
    ||| n == 0x2029
    ||| n == 0x202F
    ||| n == 0x205F
    ||| n == 0x3000
}

/// `s` without the white space it starts with.
pub open spec fn trim_start(s: Seq<char>) -> Seq<char>
    decreases s.len(),
{
    if s.len() > 0 && is_whitespace(s.first()) {
        trim_start(s.drop_first())
    } else {
        s
    }
}

/// `s` without the white space it ends with.
pub open spec fn trim_end(s: Seq<char>) -> Seq<char>
    decreases s.len(),
{
    if s.len() > 0 && is_whitespace(s.last()) {
        trim_end(s.drop_last())
    } else {
        s
    }
}

/// `s` without the white space around it.
pub open spec fn trim(s: Seq<char>) -> Seq<char> {
    trim_end(trim_start(s))
}

/// Whether `c` is white space.
pub fn is_space(c: char) -> (yes: bool)
    ensures
        yes == is_whitespace(c),
{
    let n: u32 = c as u32;
    (0x09 <= n && n <= 0x0D) || n == 0x20 || n == 0x85 || n == 0xA0 || n == 0x1680 || (0x2000 <= n
        && n <= 0x200A) || n == 0x2028 || n == 0x2029 || n == 0x202F || n == 0x205F || n == 0x3000
}

/// Trimming at the start skips exactly the leading run of white space.
proof fn lemma_trim_start_skips(s: Seq<char>, run: int)
    requires
        0 <= run <= s.len(),
        forall|i: int| 0 <= i < run ==> is_whitespace(s[i]),
        run < s.len() ==> !is_whitespace(s[run]),
    ensures
        trim_start(s) == s.skip(run),
    decreases run,
{
    if run == 0 {
        assert(s.skip(0) =~= s);
    } else {
        lemma_trim_start_skips(s.drop_first(), run - 1);
        assert(s.drop_first().skip(run - 1) =~= s.skip(run));
    }
}

/// Trimming at the end keeps exactly what stands before the trailing run of
/// white space.
proof fn lemma_trim_end_takes(s: Seq<char>, kept: int)
    requires
        0 <= kept <= s.len(),
        forall|i: int| kept <= i < s.len() ==> is_whitespace(s[i]),
        kept > 0 ==> !is_whitespace(s[kept - 1]),
    ensures
        trim_end(s) == s.take(kept),
    decreases s.len() - kept,
{
    if kept == s.len() {
        assert(s.take(kept) =~= s);
    } else {
        lemma_trim_end_takes(s.drop_last(), kept);
        assert(s.drop_last().take(kept) =~= s.take(kept));
    }
}

/// Where the trimmed part of `line` starts and ends.
fn trim_bounds(line: &Vec<char>) -> (bounds: (usize, usize))
    ensures
        bounds.0 <= bounds.1 <= line.len(),
        line@.subrange(bounds.0 as int, bounds.1 as int) == trim(line@),
{
    let mut start: usize = 0;
    while start < line.len() && is_space(line[start])
        invariant
            start <= line.len(),
            forall|i: int| 0 <= i < start ==> is_whitespace(line@[i]),
        decreases line.len() - start,
    {
        start += 1;
    }
    let mut end: usize = line.len();
    while end > start && is_space(line[end - 1])
        invariant
            start <= end <= line.len(),
            forall|i: int| end <= i < line.len() ==> is_whitespace(line@[i]),
        decreases end,
    {
        end -= 1;
    }
    proof {
        let rest = line@.skip(start as int);
        lemma_trim_start_skips(line@, start as int);
        lemma_trim_end_takes(rest, end - start);
        assert(rest.take(end - start) =~= line@.subrange(start as int, end as int));
    }
    (start, end)
}

/// The stretches of `s` between its line feeds, in order. A text without a
/// line feed is one line; a line feed at the very end leaves an empty last line.
pub open spec fn lines(s: Seq<char>) -> Seq<Seq<char>>
    decreases s.len(),
{
    if s.len() == 0 {
        seq![Seq::<char>::empty()]
    } else {
        let before = lines(s.drop_last());
        if s.last() == '\n' {
            before.push(Seq::empty())
        } else {
            before.drop_last().push(before.last().push(s.last()))
        }
    }
}

/// The lines among `lines` that hold more than white space, each trimmed.
pub open spec fn trimmed_lines(lines: Seq<Seq<char>>) -> Seq<Seq<char>> {
    lines.map_values(|line: Seq<char>| trim(line)).filter(|line: Seq<char>| line.len() > 0)
}

/// The URLs that a text lists: its lines, each without the white space around
/// it, and without the lines that are then empty.
pub open spec fn url_lines(s: Seq<char>) -> Seq<Seq<char>> {
    trimmed_lines(lines(s))
}

/// A list of texts as a mathematical value.
pub open spec fn texts(list: Seq<String>) -> Seq<Seq<char>> {
    Seq::new(list.len(), |i: int| list[i]@)
}

/// `String::push`: the text afterwards is the text before with `c` at its end.
pub assume_specification[ String::push ](text: &mut String, c: char)
    ensures
        final(text)@ == old(text)@.push(c),
;

/// There is always at least one line.
proof fn lemma_lines_nonempty(s: Seq<char>)
    ensures
        lines(s).len() >= 1,
    decreases s.len(),
{
    if s.len() > 0 {
        lemma_lines_nonempty(s.drop_last());
    }
}

/// Adding a line to a list adds its trimmed form to the trimmed list, unless
/// it is blank.
proof fn lemma_trimmed_lines_push(list: Seq<Seq<char>>, line: Seq<char>)
    ensures
        trimmed_lines(list.push(line)) == if trim(line).len() > 0 {
            trimmed_lines(list).push(trim(line))
        } else {
            trimmed_lines(list)
        },
{
    let shorten = |line: Seq<char>| trim(line);
    let filled = |line: Seq<char>| line.len() > 0;
    let longer = list.push(line).map_values(shorten);
    assert(longer.drop_last() =~= list.map_values(shorten));
    assert(longer.last() == trim(line));
    reveal(Seq::filter);
    assert(longer.filter(filled) == if filled(longer.last()) {
        longer.drop_last().filter(filled).push(longer.last())
    } else {
        longer.drop_last().filter(filled)
    });
}

/// The text that the characters of `line` from `start` up to `end` spell.
fn text_between(line: &Vec<char>, start: usize, end: usize) -> (text: String)
    requires
        start <= end <= line.len(),
    ensures
        text@ == line@.subrange(start as int, end as int),
{
    let mut text = String::new();
    let mut next: usize = start;
    while next < end
        invariant
            start <= next <= end <= line.len(),
            text@ == line@.subrange(start as int, next as int),
        decreases end - next,
    {
        text.push(line[next]);
        assert(line@.subrange(start as int, next + 1) =~= line@.subrange(
            start as int,
            next as int,
        ).push(line@[next as int]));
        next += 1;
    }
    text
}

/// Closes a line: its trimmed form joins `urls` if anything is left of it.
fn keep_line(urls: &mut Vec<String>, line: &Vec<char>)
    ensures
        texts(final(urls)@) == if trim(line@).len() > 0 {
            texts(old(urls)@).push(trim(line@))
        } else {
            texts(old(urls)@)
        },
{
    let (start, end) = trim_bounds(line);
    if start < end {
        let url = text_between(line, start, end);
        urls.push(url);
        assert(texts(urls@) =~= texts(old(urls)@).push(trim(line@)));
    }
}

/// Reads the URLs that the text of a file lists, one on a line. White space
/// around a URL is dropped, and so is a line that holds nothing else.
pub fn read_url_lines(contents: &str) -> (urls: Vec<String>)
    ensures
        texts(urls@) == url_lines(contents@),
{
    let mut urls: Vec<String> = Vec::new();
    let mut line: Vec<char> = Vec::new();
    let ghost mut seen: Seq<char> = Seq::empty();
    proof {
        assert(texts(urls@) =~= Seq::<Seq<char>>::empty());
        assert(lines(seen).drop_last() =~= Seq::<Seq<char>>::empty());
        assert(trimmed_lines(Seq::<Seq<char>>::empty()) =~= Seq::<Seq<char>>::empty());
    }
    for c in it: contents.chars()
        invariant
            it.seq() == contents@,
            seen == contents@.take(it.index()),
            texts(urls@) == trimmed_lines(lines(seen).drop_last()),
            line@ == lines(seen).last(),
    {
        proof {
            let longer = seen.push(c);
            assert(longer.drop_last() =~= seen);
            assert(longer =~= contents@.take(it.index() + 1));
            lemma_lines_nonempty(seen);
            if c == '\n' {
                assert(lines(longer).drop_last() =~= lines(seen));
                assert(lines(seen) =~= lines(seen).drop_last().push(line@));
                lemma_trimmed_lines_push(lines(seen).drop_last(), line@);
            } else {
                assert(lines(longer).drop_last() =~= lines(seen).drop_last());
            }
            seen = longer;
        }
        if c == '\n' {
            keep_line(&mut urls, &line);
            line = Vec::new();
        } else {
            line.push(c);
        }
    }
    proof {
        assert(seen =~= contents@);
        lemma_lines_nonempty(seen);
        assert(lines(seen) =~= lines(seen).drop_last().push(line@));
        lemma_trimmed_lines_push(lines(seen).drop_last(), line@);
    }
    keep_line(&mut urls, &line);
    urls
}

/// Whether `url` can stand on a line as it is: it is not empty, it neither
/// starts nor ends with white space, and no line feed is in it.
pub open spec fn is_bare(url: Seq<char>) -> bool {
    &&& url.len() > 0
    &&& !is_whitespace(url.first())
    &&& !is_whitespace(url.last())
    &&& forall|i: int| 0 <= i < url.len() ==> url[i] != '\n'
}

/// Whether `pad` is white space that stays on its line.
pub open spec fn is_padding(pad: Seq<char>) -> bool {
    forall|i: int| 0 <= i < pad.len() ==> is_whitespace(pad[i]) && pad[i] != '\n'
}

/// The lines of a file that lists `urls`: the i-th URL between `lead[i]` and
/// `trail[i]`.
pub open spec fn padded(urls: Seq<Seq<char>>, lead: Seq<Seq<char>>, trail: Seq<Seq<char>>) -> Seq<
    Seq<char>,
> {
    Seq::new(urls.len(), |i: int| lead[i] + urls[i] + trail[i])
}

/// The text of a file with these lines, a line feed after each.
pub open spec fn listing(lines: Seq<Seq<char>>) -> Seq<char>
    decreases lines.len(),
{
    if lines.len() == 0 {
        Seq::empty()
    } else {
        listing(lines.drop_last()) + lines.last() + seq!['\n']
    }
}

/// Text without a line feed, put behind a text, extends its last line.
proof fn lemma_lines_extend(s: Seq<char>, more: Seq<char>)
    requires
        forall|i: int| 0 <= i < more.len() ==> more[i] != '\n',
    ensures
        lines(s + more) == lines(s).drop_last().push(lines(s).last() + more),
    decreases more.len(),
{
    lemma_lines_nonempty(s);
    if more.len() == 0 {
        assert(s + more =~= s);
        assert(lines(s).last() + more =~= lines(s).last());
        assert(lines(s).drop_last().push(lines(s).last()) =~= lines(s));
    } else {
        let shorter = more.drop_last();
        lemma_lines_extend(s, shorter);
        assert((s + more).drop_last() =~= s + shorter);
        assert((s + more).last() == more.last());
        let before = lines(s + shorter);
        assert(before.drop_last() =~= lines(s).drop_last());
        assert(before.last().push(more.last()) =~= lines(s).last() + more);
    }
}

/// A file that ends each of its lines with a line feed splits into those
/// lines and one empty line after the last.
proof fn lemma_lines_of_listing(list: Seq<Seq<char>>)
    requires
        forall|i: int, j: int|
            0 <= i < list.len() && 0 <= j < list[i].len() ==> #[trigger] list[i][j] != '\n',
    ensures
        lines(listing(list)) == list.push(Seq::empty()),
        list.len() > 0 ==> lines(listing(list).drop_last()) == list,
    decreases list.len(),
{
    if list.len() == 0 {
        assert(lines(listing(list)) =~= list.push(Seq::empty()));
    } else {
        let shorter = list.drop_last();
        let head = listing(shorter);
        let open = head + list.last();
        lemma_lines_of_listing(shorter);
        lemma_lines_extend(head, list.last());
        assert(lines(head).drop_last() =~= shorter);
        assert(Seq::<char>::empty() + list.last() =~= list.last());
        assert(lines(open) =~= list);
        assert(listing(list).drop_last() =~= open);
        assert(listing(list).last() == '\n');
    }
}

/// Trimming a bare URL with padding around it gives the URL back.
proof fn lemma_trim_padded(lead: Seq<char>, url: Seq<char>, trail: Seq<char>)
    requires
        is_bare(url),
        is_padding(lead),
        is_padding(trail),
    ensures
        trim(lead + url + trail) == url,
{
    let line = lead + url + trail;
    lemma_trim_start_skips(line, lead.len() as int);
    let rest = line.skip(lead.len() as int);
    assert(rest =~= url + trail);
    lemma_trim_end_takes(rest, url.len() as int);
    assert(rest.take(url.len() as int) =~= url);
}

/// Bare URLs, however padded, are what is left of their lines after trimming.
proof fn lemma_trimmed_padded(urls: Seq<Seq<char>>, lead: Seq<Seq<char>>, trail: Seq<Seq<char>>)
    requires
        lead.len() == urls.len(),
        trail.len() == urls.len(),
        forall|i: int| 0 <= i < urls.len() ==> is_bare(#[trigger] urls[i]),
        forall|i: int| 0 <= i < urls.len() ==> is_padding(#[trigger] lead[i]),
        forall|i: int| 0 <= i < urls.len() ==> is_padding(#[trigger] trail[i]),
    ensures
        trimmed_lines(padded(urls, lead, trail)) == urls,
    decreases urls.len(),
{
    let list = padded(urls, lead, trail);
    if urls.len() == 0 {
        assert(trimmed_lines(list) =~= urls);
    } else {
        let shorter = padded(urls.drop_last(), lead.drop_last(), trail.drop_last());
        lemma_trimmed_padded(urls.drop_last(), lead.drop_last(), trail.drop_last());
        assert(list =~= shorter.push(list.last()));
        lemma_trimmed_lines_push(shorter, list.last());
        lemma_trim_padded(lead.last(), urls.last(), trail.last());
        assert(urls =~= urls.drop_last().push(urls.last()));
    }
}

/// A file that lists URLs one on a line, each with any white space before and
/// after it, reads back as those URLs: the same list that results when the
/// URLs are handed over directly. This holds with and without a line feed
/// after the last line.
pub proof fn lemma_listing_reads_back(
    urls: Seq<Seq<char>>,
    lead: Seq<Seq<char>>,
    trail: Seq<Seq<char>>,
)
    requires
        lead.len() == urls.len(),
        trail.len() == urls.len(),
        forall|i: int| 0 <= i < urls.len() ==> is_bare(#[trigger] urls[i]),
        forall|i: int| 0 <= i < urls.len() ==> is_padding(#[trigger] lead[i]),
        forall|i: int| 0 <= i < urls.len() ==> is_padding(#[trigger] trail[i]),
    ensures
        url_lines(listing(padded(urls, lead, trail))) == urls,
        urls.len() > 0 ==> url_lines(listing(padded(urls, lead, trail)).drop_last()) == urls,
{
    let list = padded(urls, lead, trail);
    assert forall|i: int, j: int| 0 <= i < list.len() && 0 <= j < list[i].len() implies #[trigger]
        list[i][j] != '\n' by {
        assert(is_bare(urls[i]));
        assert(is_padding(lead[i]));
        assert(is_padding(trail[i]));
    }
    lemma_lines_of_listing(list);
    lemma_trimmed_padded(urls, lead, trail);
    lemma_trimmed_lines_push(list, Seq::empty());
}

} // verus!
