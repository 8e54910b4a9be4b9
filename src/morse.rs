//! The Morse alphabet of the button, command words, and the decoder that
//! turns live presses into a word.
use vstd::prelude::*;
use crate::button::{later, Press};
use vstd::std_specs::iter::IteratorSpec;

verus! {

/// One symbol of the button alphabet.
#[derive(Clone, Copy, Debug, PartialEq, Eq, Hash, Structural)]
pub enum Morse {
    Long,
    Short,
}

/// A character that is neither a dot nor a dash.
#[derive(Clone, Copy, Debug, PartialEq, Eq, Structural)]
pub struct MorseError {
    pub bad: char,
}

/// The symbol that a configuration character stands for.
pub open spec fn symbol_of(c: char) -> Option<Morse> {
    if c == '_' || c == '-' || c == '—' || c == 'ー' {
        Some(Morse::Long)
    } else if c == '.' || c == '°' || c == '·' || c == '・' {
        Some(Morse::Short)
    } else {
        None
    }
}

/// Every character of `s` is a dot or a dash.
pub open spec fn all_symbols(s: Seq<char>) -> bool {
    forall|i: int| 0 <= i < s.len() ==> (#[trigger] symbol_of(s[i])) is Some
}

/// The symbols that the characters of `s` stand for.
pub open spec fn symbols_of(s: Seq<char>) -> Seq<Morse> {
    s.map_values(|c: char| symbol_of(c)->0)
}

/// The character that a word is written with for each symbol.
pub open spec fn char_of(m: Morse) -> char {
    match m {
        Morse::Long => '—',
        Morse::Short => '·',
    }
}

/// How a word is written out.
pub open spec fn text_of(w: Seq<Morse>) -> Seq<char> {
    w.map_values(|m: Morse| char_of(m))
}

impl Morse {
    /// `_ - — ー` are long, `. ° · ・` are short; anything else is refused.
    pub fn try_from(c: char) -> (r: Result<Morse, MorseError>)
        ensures
            r matches Ok(m) ==> symbol_of(c) == Some(m),
            r is Err <==> symbol_of(c) is None,
            r matches Err(e) ==> e.bad == c,
    {
        if c == '_' || c == '-' || c == '—' || c == 'ー' {
            Ok(Morse::Long)
        } else if c == '.' || c == '°' || c == '·' || c == '・' {
            Ok(Morse::Short)
        } else {
            Err(MorseError { bad: c })
        }
    }
}

/// An ordered sequence of symbols: a command key.
#[derive(Clone, Debug, Eq, Hash)]
pub struct MorseWord(pub Vec<Morse>);

impl View for MorseWord {
    type V = Seq<Morse>;

    open spec fn view(&self) -> Seq<Morse> {
        self.0@
    }
}

impl PartialEq for MorseWord {
    fn eq(&self, other: &MorseWord) -> (r: bool) {
        same_symbols(&self.0, &other.0)
    }
}

impl vstd::std_specs::cmp::PartialEqSpecImpl for MorseWord {
    open spec fn obeys_eq_spec() -> bool {
        true
    }

    open spec fn eq_spec(&self, other: &MorseWord) -> bool {
        self@ == other@
    }
}

fn same_symbols(a: &Vec<Morse>, b: &Vec<Morse>) -> (r: bool)
    ensures
        r <==> a@ == b@,
{
    if a.len() != b.len() {
        return false;
    }
    let mut i: usize = 0;
    while i < a.len()
        invariant
            a.len() == b.len(),
            i <= a.len(),
            forall|j: int| 0 <= j < i ==> a@[j] == b@[j],
        decreases a.len() - i,
    {
        if a[i] != b[i] {
            return false;
        }
        i = i + 1;
    }
    assert(a@ =~= b@);
    true
}

impl MorseWord {
    /// Parses a configuration key; the error names the first character that
    /// is neither a dot nor a dash.
    pub fn try_from(s: &str) -> (r: Result<MorseWord, MorseError>)
        ensures
            r is Ok <==> all_symbols(s@),
            r matches Ok(w) ==> w@ == symbols_of(s@),
            r matches Err(e) ==> exists|i: int|
                0 <= i < s@.len() && s@[i] == e.bad && symbol_of(s@[i]) is None
                    && all_symbols(#[trigger] s@.subrange(0, i)),
    {
        let mut v: Vec<Morse> = Vec::new();
        let mut chars = s.chars();
        let ghost mut seen: Seq<char> = Seq::empty();
        proof {
            vstd::string::axiom_spec_iter(s);
        }
        loop
            invariant
                seen + chars.remaining() == s@,
                all_symbols(seen),
                v@ == symbols_of(seen),
                chars.obeys_prophetic_iter_laws(),
                chars.decrease() is Some,
            decreases chars.decrease()->0,
        {
            let ghost before = chars;
            let next = chars.next();
            proof {
                vstd::string::next_postcondition(&before, &chars, next);
            }
            match next {
                None => {
                    assert(seen =~= s@);
                    return Ok(MorseWord(v));
                },
                Some(c) => {
                    assert(c == s@[seen.len() as int]);
                    match Morse::try_from(c) {
                        Ok(m) => {
                            v.push(m);
                            proof {
                                let ghost old_seen = seen;
                                seen = seen.push(c);
                                assert(v@ =~= symbols_of(seen));
                                assert(seen + chars.remaining() =~= s@) by {
                                    assert(before.remaining() =~= seq![c] + chars.remaining());
                                    assert(old_seen + before.remaining() == s@);
                                }
                            }
                        },
                        Err(e) => {
                            assert(s@.subrange(0, seen.len() as int) =~= seen);
                            assert(!all_symbols(s@));
                            return Err(e);
                        },
                    }
                },
            }
        }
    }

    /// The word written out with `—` and `·`.
    pub fn text(&self) -> (r: String)
        ensures
            r@ == text_of(self@),
    {
        let mut out = String::new();
        let mut i: usize = 0;
        while i < self.0.len()
            invariant
                i <= self.0.len(),
                out@ == text_of(self@.subrange(0, i as int)),
            decreases self.0.len() - i,
        {
            proof {
                reveal_strlit("—");
                reveal_strlit("·");
            }
            match self.0[i] {
                Morse::Long => out.append("—"),
                Morse::Short => out.append("·"),
            }
            assert(self@.subrange(0, i + 1) =~= self@.subrange(0, i as int).push(self@[i as int]));
            i = i + 1;
            assert(out@ =~= text_of(self@.subrange(0, i as int)));
        }
        assert(self@.subrange(0, self.0.len() as int) =~= self@);
        out
    }
}

/// Silence after a closed symbol that ends a word.
pub const WORD_GAP_MS: u64 = 2000;

/// The symbol that a press adds to a word being decoded, if any: a short
/// press is a short symbol, the start of a long press a long one, and the end
/// of a long press only closes the symbol already added.
pub open spec fn symbol_of_press(p: Press) -> Option<Morse> {
    match p {
        Press::Short(_) => Some(Morse::Short),
        Press::LongStart(_) => Some(Morse::Long),
        Press::LongEnd(_, _) => None,
    }
}

/// Decodes one word from live presses.
///
/// The short press that started the session is already the first symbol.
/// While no long press is open, each wait ends after `WORD_GAP_MS` of
/// silence, which ends the word.
#[derive(Clone, Debug)]
pub struct MorseDecoder {
    pub symbols: Vec<Morse>,
    /// Whether the next wait has a deadline (no long press is open).
    pub timeout: bool,
}

impl MorseDecoder {
    /// A session begun by a short press.
    pub fn new() -> (r: MorseDecoder)
        ensures
            r.symbols@ == seq![Morse::Short],
            r.timeout,
    {
        MorseDecoder { symbols: vec![Morse::Short], timeout: true }
    }

    /// Deadline of the next wait for a press, started at `now`.
    pub fn deadline(&self, now: u64) -> (r: Option<u64>)
        ensures
            r == (if self.timeout { Some(later(now, WORD_GAP_MS)) } else { None }),
    {
        if self.timeout {
            if now > u64::MAX - WORD_GAP_MS { Some(u64::MAX) } else { Some(now + WORD_GAP_MS) }
        } else {
            None
        }
    }

    /// Takes the outcome of one wait: a press, or `None` for silence.
    /// Returns whether the word is complete.
    pub fn feed(&mut self, event: Option<Press>) -> (done: bool)
        ensures
            done <==> event is None,
            event is None ==> *final(self) == *old(self),
            event matches Some(p) ==> {
                &&& final(self).symbols@ == match symbol_of_press(p) {
                    Some(m) => old(self).symbols@.push(m),
                    None => old(self).symbols@,
                }
                &&& final(self).timeout == !(p is LongStart)
            },
    {
        match event {
            None => true,
            Some(Press::Short(_)) => {
                self.symbols.push(Morse::Short);
                self.timeout = true;
                false
            },
            Some(Press::LongStart(_)) => {
                self.symbols.push(Morse::Long);
                self.timeout = false;
                false
            },
            Some(Press::LongEnd(_, _)) => {
                self.timeout = true;
                false
            },
        }
    }

    /// The decoded word.
    pub fn finish(self) -> (r: MorseWord)
        ensures
            r@ == self.symbols@,
    {
        MorseWord(self.symbols)
    }
}

/// A key written only with `.` and `-` parses, and the word written back out
/// parses again to the same symbols; dots come back as `·`, dashes as `—`.
pub proof fn lemma_round_trip(s: Seq<char>)
    requires
        forall|i: int| 0 <= i < s.len() ==> s[i] == '.' || s[i] == '-',
    ensures
        all_symbols(s),
        all_symbols(text_of(symbols_of(s))),
        symbols_of(text_of(symbols_of(s))) == symbols_of(s),
        forall|i: int| 0 <= i < s.len() ==> (#[trigger] text_of(symbols_of(s))[i]) == if s[i] == '.' { '·' } else { '—' },
{
    let t = text_of(symbols_of(s));
    assert(all_symbols(s)) by {
        assert forall|i: int| 0 <= i < s.len() implies (#[trigger] symbol_of(s[i])) is Some by {
            assert(s[i] == '.' || s[i] == '-');
        }
    }
    assert(all_symbols(t)) by {
        assert forall|i: int| 0 <= i < t.len() implies (#[trigger] symbol_of(t[i])) is Some by {
            assert(t[i] == char_of(symbols_of(s)[i]));
        }
    }
    assert(symbols_of(t) =~= symbols_of(s)) by {
        assert forall|i: int| 0 <= i < t.len() implies symbols_of(t)[i] == symbols_of(s)[i] by {
            assert(t[i] == char_of(symbols_of(s)[i]));
        }
    }
}

} // verus!
