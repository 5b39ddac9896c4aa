//! The ordered rule table: compiled text-rewrite rules built once at startup
//! and applied in declared order by the normalizer.  Pattern matching runs
//! through the regex crate behind a few trusted items; everything around the
//! calls is verified.

use vstd::prelude::*;
use vstd::string::StringExecFns;
use crate::text::{escape_markup, wrap_markup, escape_text, envelope};

verus! {

/// Names the success of regex::Regex::new: a pattern either compiles or not,
/// as a function of the pattern text alone.
pub uninterp spec fn regex_valid(pattern: Seq<char>) -> bool;

/// Names the result of regex::Regex::replace_all for a compiled pattern, a
/// haystack and a replacement template: a function of those three texts alone.
pub uninterp spec fn regex_replace_all(
    pattern: Seq<char>,
    hay: Seq<char>,
    rep: Seq<char>,
) -> Seq<char>;

/// Names the result of regex::escape: a function of the input text alone.
pub uninterp spec fn regex_escape_of(text: Seq<char>) -> Seq<char>;

#[verifier::external_type_specification]
#[verifier::external_body]
pub struct ExRegex(regex::Regex);

/// One rewrite rule: a compiled pattern, the pattern text it was compiled
/// from, and a replacement template (which may reference capture groups).
pub struct Rule {
    re: regex::Regex,
    pattern: String,
    replacement: String,
}

/// What a rule is at the specification level: its pattern and template texts.
#[verifier::ext_equal]
pub struct RuleView {
    pub pattern: Seq<char>,
    pub replacement: Seq<char>,
}

impl View for Rule {
    type V = RuleView;

    closed spec fn view(&self) -> RuleView {
        RuleView { pattern: self.pattern@, replacement: self.replacement@ }
    }
}

/// Relies on regex::Regex::new: compiling succeeds exactly when the pattern
/// text is a valid expression within the compiler's size limit, which
/// `regex_valid` names.  The `re` field of every `Rule` is the compiled form
/// of its `pattern` field, since this is the type's only constructor.
#[verifier::external_body]
fn compile_rule(pattern: &str, replacement: &str) -> (r: Option<Rule>)
    ensures
        r is Some <==> regex_valid(pattern@),
        r matches Some(rule) ==> rule@.pattern == pattern@ && rule@.replacement == replacement@,
{
    match regex::Regex::new(pattern) {
        Ok(re) => Some(
            Rule { re, pattern: pattern.to_string(), replacement: replacement.to_string() },
        ),
        Err(_) => None,
    }
}

impl Rule {
    /// Relies on regex::Regex::replace_all with a template as replacement:
    /// every non-overlapping match is replaced, and the result is a function
    /// of the pattern, the haystack and the template alone, which
    /// `regex_replace_all` names (`re` is compiled from `pattern`; see
    /// `compile_rule`).
    #[verifier::external_body]
    pub(crate) fn apply(&self, text: &str) -> (r: String)
        ensures
            r@ == regex_replace_all(self@.pattern, text@, self@.replacement),
    {
        self.re.replace_all(text, self.replacement.as_str()).into_owned()
    }
}

/// Relies on regex::escape: rewrites text so it matches itself literally in a
/// pattern; the result is a function of the input alone, named
/// `regex_escape_of`.
#[verifier::external_body]
fn escape_pattern(text: &str) -> (r: String)
    ensures
        r@ == regex_escape_of(text@),
{
    regex::escape(text)
}

/// How a corpus entry's pattern text is formed from its source text.
#[derive(Clone, Copy, PartialEq, Eq, Structural, Debug)]
pub enum RuleKind {
    /// The text is the pattern, written out in full.
    Raw,
    /// Literal, case-sensitive match of the text.
    Exact,
    /// Literal, case-insensitive match of the text.
    Fold,
    /// Literal, case-insensitive, whole-word-bounded match of the text.
    Word,
}

/// The pattern text an entry compiles to.
pub open spec fn spec_rule_pattern(kind: RuleKind, text: Seq<char>) -> Seq<char> {
    match kind {
        RuleKind::Raw => text,
        RuleKind::Exact => regex_escape_of(text),
        RuleKind::Fold => "(?i)"@ + regex_escape_of(text),
        RuleKind::Word => "(?i)\\b"@ + regex_escape_of(text) + "\\b"@,
    }
}

pub open spec fn entry_view(e: (RuleKind, &str, &str)) -> (RuleKind, Seq<char>, Seq<char>) {
    (e.0, e.1@, e.2@)
}

pub open spec fn entries_view(
    s: Seq<(RuleKind, &str, &str)>,
) -> Seq<(RuleKind, Seq<char>, Seq<char>)> {
    s.map_values(|e: (RuleKind, &str, &str)| entry_view(e))
}

/// The table a corpus builds: entries in order, each compiled from its
/// pattern text, those whose pattern does not compile silently dropped.
pub open spec fn table_model(entries: Seq<(RuleKind, Seq<char>, Seq<char>)>) -> Seq<RuleView>
    decreases entries.len(),
{
    if entries.len() == 0 {
        Seq::empty()
    } else {
        let prev = table_model(entries.drop_last());
        let e = entries.last();
        let pat = spec_rule_pattern(e.0, e.1);
        if regex_valid(pat) {
            prev.push(RuleView { pattern: pat, replacement: e.2 })
        } else {
            prev
        }
    }
}

/// Rule corpus, structural group.
pub open spec fn entries_structural() -> Seq<(RuleKind, Seq<char>, Seq<char>)> {
    seq![
        (RuleKind::Raw, "((http|ftp|https)://)?(www\\.)?([-a-zA-Z0-9@:%._\\+~#\\=]{2,256}\\.[a-z]{2,6}\\b)([-a-zA-Z0-9@:%_\\+.~#?&//\\=]*)"@, "$4"@),
        (RuleKind::Raw, "file:\\/\\/\\/[a-zA-Z]:\\/.*"@, "file"@),
        (RuleKind::Fold, "View keyboard shortcuts"@, ""@),
        (RuleKind::Fold, "To view keyboard shortcuts, press question mark"@, ""@),
        (RuleKind::Fold, "Next Reply"@, ""@),
        (RuleKind::Fold, "___"@, "."@),
        (RuleKind::Fold, "###"@, "."@),
        (RuleKind::Fold, "__"@, "."@),
        (RuleKind::Fold, "##"@, "."@),
    ]
}

/// Rule corpus, emoji group.
pub open spec fn entries_emoji() -> Seq<(RuleKind, Seq<char>, Seq<char>)> {
    seq![
        (RuleKind::Exact, "üò≠"@, " Sob "@),
        (RuleKind::Exact, "üòÇ"@, " Joy "@),
        (RuleKind::Exact, "üî•"@, " Fire "@),
        (RuleKind::Exact, "‚ù§Ô∏è"@, " Heart "@),
        (RuleKind::Exact, "üëç"@, " Thumbs up "@),
        (RuleKind::Exact, "üéâ"@, " Party "@),
    ]
}

/// Rule corpus, words a group.
pub open spec fn entries_words_a() -> Seq<(RuleKind, Seq<char>, Seq<char>)> {
    seq![
        (RuleKind::Word, "Ableton"@, "Abelten"@),
        (RuleKind::Word, "AOC"@, "A.O.C."@),
        (RuleKind::Word, "Aesop"@, "Ace-op"@),
        (RuleKind::Word, "Aes"@, "Ace"@),
        (RuleKind::Word, "Bastiat"@, "Bah-stee-aught"@),
        (RuleKind::Word, "Calendly"@, "Cal-endly"@),
        (RuleKind::Word, "Camus"@, "Camu"@),
        (RuleKind::Word, "Carrd"@, "Card"@),
        (RuleKind::Word, "Cerave"@, "CeraVee"@),
        (RuleKind::Word, "Conversion"@, "Convursion"@),
        (RuleKind::Word, "CopyQ"@, "CopyCue"@),
        (RuleKind::Word, "Cuck"@, "Cuhck"@),
        (RuleKind::Word, "Culinary"@, "Cullinary"@),
        (RuleKind::Word, "Chapo"@, "Chap-o"@),
        (RuleKind::Word, "Chatgpt"@, "ChatGPT"@),
        (RuleKind::Word, "DeSantis"@, "De-Santis"@),
        (RuleKind::Word, "DMing"@, "D-M-ing"@),
    ]
}

/// Rule corpus, words b group.
pub open spec fn entries_words_b() -> Seq<(RuleKind, Seq<char>, Seq<char>)> {
    seq![
        (RuleKind::Word, "Doja"@, "Doeja"@),
        (RuleKind::Word, "Elgato"@, "El-got-o"@),
        (RuleKind::Word, "Fage"@, "Fa-yay"@),
        (RuleKind::Word, "Ghibli"@, "Jiblee"@),
        (RuleKind::Word, "Giga"@, "Gigga"@),
        (RuleKind::Word, "Github"@, "GitHub"@),
        (RuleKind::Word, "Glutes"@, "Glootes"@),
        (RuleKind::Word, "Goku"@, "Go-ku"@),
        (RuleKind::Word, "Hormozi"@, "Hormoezee"@),
        (RuleKind::Word, "Huberman"@, "Hewberman"@),
        (RuleKind::Word, "JavaScript"@, "Java-Script"@),
        (RuleKind::Word, "Joji"@, "Joegee"@),
        (RuleKind::Word, "Kasa"@, "Casa"@),
        (RuleKind::Word, "Kayfabe"@, "Kay-fabe"@),
        (RuleKind::Word, "Kimya"@, "Kim-ya"@),
        (RuleKind::Word, "Kobe"@, "Co-be"@),
        (RuleKind::Fold, "LeadSynth.com"@, "LeadSynth dot com"@),
    ]
}

/// Rule corpus, words c group.
pub open spec fn entries_words_c() -> Seq<(RuleKind, Seq<char>, Seq<char>)> {
    seq![
        (RuleKind::Word, "Leevi"@, "Levy"@),
        (RuleKind::Word, "Leila"@, "Layla"@),
        (RuleKind::Word, "Livestream"@, "Lyevstream"@),
        (RuleKind::Fold, "Monetiz"@, "Mahnetiz"@),
        (RuleKind::Word, "Mozi"@, "Moezee"@),
        (RuleKind::Word, "Munger"@, "Mun-gir"@),
        (RuleKind::Word, "Pantone"@, "Pan-tone"@),
        (RuleKind::Word, "Paracord"@, "Parahcord"@),
        (RuleKind::Word, "PreCheck"@, "Pre-Check"@),
        (RuleKind::Word, "Rapport"@, "Rapore"@),
        (RuleKind::Word, "Rangeman"@, "Range-Man"@),
        (RuleKind::Word, "RevShare"@, "Rev-Share"@),
        (RuleKind::Word, "Schopenhauer"@, "Showpenhower"@),
        (RuleKind::Word, "Sneako"@, "Sneak-o"@),
        (RuleKind::Word, "Tiktok"@, "TikTok"@),
        (RuleKind::Word, "ToDos"@, "To Dos"@),
        (RuleKind::Word, "ToDo"@, "To Do"@),
    ]
}

/// Rule corpus, words d group.
pub open spec fn entries_words_d() -> Seq<(RuleKind, Seq<char>, Seq<char>)> {
    seq![
        (RuleKind::Word, "Toup"@, "Tooop"@),
        (RuleKind::Word, "Upsell"@, "Up-sell"@),
        (RuleKind::Word, "Vegeta"@, "Veg-eatuh"@),
        (RuleKind::Word, "Webhook"@, "Web-hook"@),
        (RuleKind::Word, "Whitespace"@, "White-space"@),
        (RuleKind::Word, "Wordcel"@, "Wordcell"@),
        (RuleKind::Word, "Xmas"@, "Christmas"@),
        (RuleKind::Word, "Zherka"@, "Zerka"@),
        (RuleKind::Word, "AFAICT"@, "As far as I can tell"@),
        (RuleKind::Word, "AFAIK"@, "As far as I know"@),
        (RuleKind::Word, "FR"@, "For Real"@),
        (RuleKind::Word, "IIRC"@, "If I recall correctly"@),
        (RuleKind::Word, "IMO"@, "In my opinion"@),
        (RuleKind::Word, "SEO"@, "S-E-O"@),
        (RuleKind::Word, "TBQH"@, "To be quite honest"@),
        (RuleKind::Word, "TBH"@, "To be honest"@),
        (RuleKind::Word, "YC"@, "Y-C"@),
    ]
}

/// The full rule corpus, in application order: structural rules first (URL
/// and file-reference collapsing, stray UI phrases, markdown dividers), then
/// emoji literals, then word, brand and acronym respellings.
pub open spec fn standard_entries() -> Seq<(RuleKind, Seq<char>, Seq<char>)> {
    entries_structural() + entries_emoji() + entries_words_a() + entries_words_b() + entries_words_c() + entries_words_d()
}

/// The corpus as executable data, equal entry for entry to
/// `standard_entries`.
#[verifier::rlimit(60)]
fn standard_corpus() -> (v: Vec<(RuleKind, &'static str, &'static str)>)
    ensures
        entries_view(v@) == standard_entries(),
{
    let mut v: Vec<(RuleKind, &'static str, &'static str)> = Vec::new();
    v.push((RuleKind::Raw, "((http|ftp|https)://)?(www\\.)?([-a-zA-Z0-9@:%._\\+~#\\=]{2,256}\\.[a-z]{2,6}\\b)([-a-zA-Z0-9@:%_\\+.~#?&//\\=]*)", "$4"));
    v.push((RuleKind::Raw, "file:\\/\\/\\/[a-zA-Z]:\\/.*", "file"));
    v.push((RuleKind::Fold, "View keyboard shortcuts", ""));
    v.push((RuleKind::Fold, "To view keyboard shortcuts, press question mark", ""));
    v.push((RuleKind::Fold, "Next Reply", ""));
    v.push((RuleKind::Fold, "___", "."));
    v.push((RuleKind::Fold, "###", "."));
    v.push((RuleKind::Fold, "__", "."));
    v.push((RuleKind::Fold, "##", "."));
    assert(entries_view(v@) =~= entries_structural());
    v.push((RuleKind::Exact, "üò≠", " Sob "));
    v.push((RuleKind::Exact, "üòÇ", " Joy "));
    v.push((RuleKind::Exact, "üî•", " Fire "));
    v.push((RuleKind::Exact, "‚ù§Ô∏è", " Heart "));
    v.push((RuleKind::Exact, "üëç", " Thumbs up "));
    v.push((RuleKind::Exact, "üéâ", " Party "));
    assert(entries_view(v@) =~= entries_structural() + entries_emoji());
    v.push((RuleKind::Word, "Ableton", "Abelten"));
    v.push((RuleKind::Word, "AOC", "A.O.C."));
    v.push((RuleKind::Word, "Aesop", "Ace-op"));
    v.push((RuleKind::Word, "Aes", "Ace"));
    v.push((RuleKind::Word, "Bastiat", "Bah-stee-aught"));
    v.push((RuleKind::Word, "Calendly", "Cal-endly"));
    v.push((RuleKind::Word, "Camus", "Camu"));
    v.push((RuleKind::Word, "Carrd", "Card"));
    v.push((RuleKind::Word, "Cerave", "CeraVee"));
    v.push((RuleKind::Word, "Conversion", "Convursion"));
    v.push((RuleKind::Word, "CopyQ", "CopyCue"));
    v.push((RuleKind::Word, "Cuck", "Cuhck"));
    v.push((RuleKind::Word, "Culinary", "Cullinary"));
    v.push((RuleKind::Word, "Chapo", "Chap-o"));
    v.push((RuleKind::Word, "Chatgpt", "ChatGPT"));
    v.push((RuleKind::Word, "DeSantis", "De-Santis"));
    v.push((RuleKind::Word, "DMing", "D-M-ing"));
    assert(entries_view(v@) =~= entries_structural() + entries_emoji() + entries_words_a());
    v.push((RuleKind::Word, "Doja", "Doeja"));
    v.push((RuleKind::Word, "Elgato", "El-got-o"));
    v.push((RuleKind::Word, "Fage", "Fa-yay"));
    v.push((RuleKind::Word, "Ghibli", "Jiblee"));
    v.push((RuleKind::Word, "Giga", "Gigga"));
    v.push((RuleKind::Word, "Github", "GitHub"));
    v.push((RuleKind::Word, "Glutes", "Glootes"));
    v.push((RuleKind::Word, "Goku", "Go-ku"));
    v.push((RuleKind::Word, "Hormozi", "Hormoezee"));
    v.push((RuleKind::Word, "Huberman", "Hewberman"));
    v.push((RuleKind::Word, "JavaScript", "Java-Script"));
    v.push((RuleKind::Word, "Joji", "Joegee"));
    v.push((RuleKind::Word, "Kasa", "Casa"));
    v.push((RuleKind::Word, "Kayfabe", "Kay-fabe"));
    v.push((RuleKind::Word, "Kimya", "Kim-ya"));
    v.push((RuleKind::Word, "Kobe", "Co-be"));
    v.push((RuleKind::Fold, "LeadSynth.com", "LeadSynth dot com"));
    assert(entries_view(v@) =~= entries_structural() + entries_emoji() + entries_words_a() + entries_words_b());
    v.push((RuleKind::Word, "Leevi", "Levy"));
    v.push((RuleKind::Word, "Leila", "Layla"));
    v.push((RuleKind::Word, "Livestream", "Lyevstream"));
    v.push((RuleKind::Fold, "Monetiz", "Mahnetiz"));
    v.push((RuleKind::Word, "Mozi", "Moezee"));
    v.push((RuleKind::Word, "Munger", "Mun-gir"));
    v.push((RuleKind::Word, "Pantone", "Pan-tone"));
    v.push((RuleKind::Word, "Paracord", "Parahcord"));
    v.push((RuleKind::Word, "PreCheck", "Pre-Check"));
    v.push((RuleKind::Word, "Rapport", "Rapore"));
    v.push((RuleKind::Word, "Rangeman", "Range-Man"));
    v.push((RuleKind::Word, "RevShare", "Rev-Share"));
    v.push((RuleKind::Word, "Schopenhauer", "Showpenhower"));
    v.push((RuleKind::Word, "Sneako", "Sneak-o"));
    v.push((RuleKind::Word, "Tiktok", "TikTok"));
    v.push((RuleKind::Word, "ToDos", "To Dos"));
    v.push((RuleKind::Word, "ToDo", "To Do"));
    assert(entries_view(v@) =~= entries_structural() + entries_emoji() + entries_words_a() + entries_words_b() + entries_words_c());
    v.push((RuleKind::Word, "Toup", "Tooop"));
    v.push((RuleKind::Word, "Upsell", "Up-sell"));
    v.push((RuleKind::Word, "Vegeta", "Veg-eatuh"));
    v.push((RuleKind::Word, "Webhook", "Web-hook"));
    v.push((RuleKind::Word, "Whitespace", "White-space"));
    v.push((RuleKind::Word, "Wordcel", "Wordcell"));
    v.push((RuleKind::Word, "Xmas", "Christmas"));
    v.push((RuleKind::Word, "Zherka", "Zerka"));
    v.push((RuleKind::Word, "AFAICT", "As far as I can tell"));
    v.push((RuleKind::Word, "AFAIK", "As far as I know"));
    v.push((RuleKind::Word, "FR", "For Real"));
    v.push((RuleKind::Word, "IIRC", "If I recall correctly"));
    v.push((RuleKind::Word, "IMO", "In my opinion"));
    v.push((RuleKind::Word, "SEO", "S-E-O"));
    v.push((RuleKind::Word, "TBQH", "To be quite honest"));
    v.push((RuleKind::Word, "TBH", "To be honest"));
    v.push((RuleKind::Word, "YC", "Y-C"));
    assert(entries_view(v@) =~= entries_structural() + entries_emoji() + entries_words_a() + entries_words_b() + entries_words_c() + entries_words_d());
    v
}

pub(crate) proof fn lemma_take_step<A>(s: Seq<A>, i: int)
    requires
        0 <= i < s.len(),
    ensures
        s.take(i + 1).drop_last() =~= s.take(i),
        s.take(i + 1).last() == s[i],
{
}

/// The ordered, immutable rule table.
pub struct RuleTable {
    rules: Vec<Rule>,
}

impl View for RuleTable {
    type V = Seq<RuleView>;

    closed spec fn view(&self) -> Seq<RuleView> {
        self.rules@.map_values(|r: Rule| r@)
    }
}

/// Sequential application of the rules to a text, first rule first, each rule
/// rewriting the previous rule's output.
pub open spec fn apply_rules(rules: Seq<RuleView>, text: Seq<char>) -> Seq<char>
    decreases rules.len(),
{
    if rules.len() == 0 {
        text
    } else {
        regex_replace_all(
            rules.last().pattern,
            apply_rules(rules.drop_last(), text),
            rules.last().replacement,
        )
    }
}

/// What normalization returns: the rules applied in order, the result
/// escaped, and the whole wrapped in the markup envelope.
pub open spec fn spec_normalize(rules: Seq<RuleView>, raw: Seq<char>) -> Seq<char> {
    envelope(escape_text(apply_rules(rules, raw)))
}

impl RuleTable {
    /// Build the standard table from the fixed corpus.  An entry whose
    /// pattern does not compile is dropped; the others keep their order.
    pub fn standard() -> (t: RuleTable)
        ensures
            t@ == table_model(standard_entries()),
    {
        let entries = standard_corpus();
        let mut rules: Vec<Rule> = Vec::new();
        let n = entries.len();
        let mut i: usize = 0;
        while i < n
            invariant
                n == entries@.len(),
                i <= n,
                entries_view(entries@) == standard_entries(),
                rules@.map_values(|r: Rule| r@) == table_model(standard_entries().take(i as int)),
            decreases n - i,
        {
            let e = entries[i];
            let kind = e.0;
            let text = e.1;
            let rep = e.2;
            let pattern: String = match kind {
                RuleKind::Raw => String::from_str(text),
                RuleKind::Exact => escape_pattern(text),
                RuleKind::Fold => {
                    let mut p = String::from_str("(?i)");
                    p.append(escape_pattern(text).as_str());
                    p
                },
                RuleKind::Word => {
                    let mut p = String::from_str("(?i)\\b");
                    p.append(escape_pattern(text).as_str());
                    p.append("\\b");
                    p
                },
            };
            proof {
                assert(standard_entries()[i as int] == entry_view(entries@[i as int]));
                assert(pattern@ == spec_rule_pattern(kind, text@));
            }
            let ghost before = rules@.map_values(|r: Rule| r@);
            match compile_rule(pattern.as_str(), rep) {
                Some(rule) => {
                    rules.push(rule);
                    proof {
                        assert(rules@.map_values(|r: Rule| r@) =~= before.push(rule@));
                    }
                },
                None => {},
            }
            proof {
                lemma_take_step(standard_entries(), i as int);
            }
            i = i + 1;
        }
        proof {
            assert(standard_entries().take(n as int) =~= standard_entries());
        }
        RuleTable { rules }
    }

    /// How many rules compiled into the table.
    pub fn len(&self) -> (n: usize)
        ensures
            n == self@.len(),
    {
        self.rules.len()
    }

    /// Normalize raw text to engine markup: apply every rule in order, escape
    /// the five markup metacharacters, wrap in the envelope with the
    /// trailing-silence directive.
    pub fn normalize(&self, raw: &str) -> (r: String)
        ensures
            r@ == spec_normalize(self@, raw@),
    {
        let mut cur: String = String::from_str(raw);
        let n = self.rules.len();
        let mut i: usize = 0;
        while i < n
            invariant
                n == self.rules@.len(),
                i <= n,
                cur@ == apply_rules(self@.take(i as int), raw@),
            decreases n - i,
        {
            cur = self.rules[i].apply(cur.as_str());
            proof {
                lemma_take_step(self@, i as int);
                assert(self@[i as int] == self.rules@[i as int]@);
            }
            i = i + 1;
        }
        proof {
            assert(self@.take(n as int) =~= self@);
        }
        let escaped = escape_markup(cur.as_str());
        wrap_markup(escaped.as_str())
    }
}

} // verus!
