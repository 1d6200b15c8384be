//! Configuration surface the coordination core consumes, and the per-path
//! memo that avoids parsing the same configuration file twice.  Parsing the
//! on-disk format is the unverified shell's business; the core only holds the
//! parsed values.
use vstd::prelude::*;
use crate::text::str_eq;

verus! {

/// How the synthesis backend splits text before synthesis.
#[derive(Debug, Clone, Copy, PartialEq, Eq, Structural)]
pub enum TextSplitMethod {
    NoSplit,
    FourSentences,
    FiftyChars,
    ChinesePeriod,
    EnglishPeriod,
    AllPunctuation,
}

impl TextSplitMethod {
    /// The value the synthesis API expects for this split method.
    pub open spec fn api_value_spec(self) -> Seq<char> {
        match self {
            TextSplitMethod::NoSplit => "cut0"@,
            TextSplitMethod::FourSentences => "cut1"@,
            TextSplitMethod::FiftyChars => "cut2"@,
            TextSplitMethod::ChinesePeriod => "cut3"@,
            TextSplitMethod::EnglishPeriod => "cut4"@,
            TextSplitMethod::AllPunctuation => "cut5"@,
        }
    }

    /// Renders the split method as the synthesis API's wire value.
    pub fn to_api_value(&self) -> (r: &'static str)
        ensures
            r@ == self.api_value_spec(),
    {
        match self {
            TextSplitMethod::NoSplit => "cut0",
            TextSplitMethod::FourSentences => "cut1",
            TextSplitMethod::FiftyChars => "cut2",
            TextSplitMethod::ChinesePeriod => "cut3",
            TextSplitMethod::EnglishPeriod => "cut4",
            TextSplitMethod::AllPunctuation => "cut5",
        }
    }

    /// Which split method a configuration value names: either the API value
    /// or the descriptive spelling, anything else refused.
    pub open spec fn from_api_spec(value: Seq<char>) -> Option<TextSplitMethod> {
        if value == "cut0"@ || value == "no_split"@ {
            Some(TextSplitMethod::NoSplit)
        } else if value == "cut1"@ || value == "four_sentences"@ {
            Some(TextSplitMethod::FourSentences)
        } else if value == "cut2"@ || value == "fifty_chars"@ {
            Some(TextSplitMethod::FiftyChars)
        } else if value == "cut3"@ || value == "chinese_period"@ {
            Some(TextSplitMethod::ChinesePeriod)
        } else if value == "cut4"@ || value == "english_period"@ {
            Some(TextSplitMethod::EnglishPeriod)
        } else if value == "cut5"@ || value == "all_punctuation"@ {
            Some(TextSplitMethod::AllPunctuation)
        } else {
            None
        }
    }

    /// Parses a configured split method.  Rejecting an unknown value is fatal
    /// at startup: the server refuses to run with a method it cannot name to
    /// the synthesis API.
    pub fn from_api_value(value: &str) -> (r: Option<TextSplitMethod>)
        ensures
            r == Self::from_api_spec(value@),
    {
        if str_eq(value, "cut0") || str_eq(value, "no_split") {
            Some(TextSplitMethod::NoSplit)
        } else if str_eq(value, "cut1") || str_eq(value, "four_sentences") {
            Some(TextSplitMethod::FourSentences)
        } else if str_eq(value, "cut2") || str_eq(value, "fifty_chars") {
            Some(TextSplitMethod::FiftyChars)
        } else if str_eq(value, "cut3") || str_eq(value, "chinese_period") {
            Some(TextSplitMethod::ChinesePeriod)
        } else if str_eq(value, "cut4") || str_eq(value, "english_period") {
            Some(TextSplitMethod::EnglishPeriod)
        } else if str_eq(value, "cut5") || str_eq(value, "all_punctuation") {
            Some(TextSplitMethod::AllPunctuation)
        } else {
            None
        }
    }

    /// The human-readable description of this split method.
    pub open spec fn description_spec(self) -> Seq<char> {
        match self {
            TextSplitMethod::NoSplit => "不切分文本"@,
            TextSplitMethod::FourSentences => "每四句切分一次"@,
            TextSplitMethod::FiftyChars => "每50字切分一次"@,
            TextSplitMethod::ChinesePeriod => "按中文句号切分"@,
            TextSplitMethod::EnglishPeriod => "按英文句号切分"@,
            TextSplitMethod::AllPunctuation => "按所有标点符号切分"@,
        }
    }

    /// Describes the split method for a reader.
    pub fn description(&self) -> (r: &'static str)
        ensures
            r@ == self.description_spec(),
    {
        match self {
            TextSplitMethod::NoSplit => "不切分文本",
            TextSplitMethod::FourSentences => "每四句切分一次",
            TextSplitMethod::FiftyChars => "每50字切分一次",
            TextSplitMethod::ChinesePeriod => "按中文句号切分",
            TextSplitMethod::EnglishPeriod => "按英文句号切分",
            TextSplitMethod::AllPunctuation => "按所有标点符号切分",
        }
    }
}

/// Rendering a split method for the synthesis API and parsing that value
/// back always yields the same method.
pub proof fn lemma_split_method_round_trip(m: TextSplitMethod)
    ensures
        TextSplitMethod::from_api_spec(m.api_value_spec()) == Some(m),
{
    reveal_strlit("cut0");
    reveal_strlit("cut1");
    reveal_strlit("cut2");
    reveal_strlit("cut3");
    reveal_strlit("cut4");
    reveal_strlit("cut5");
    reveal_strlit("no_split");
    reveal_strlit("four_sentences");
    reveal_strlit("fifty_chars");
    reveal_strlit("chinese_period");
    reveal_strlit("english_period");
    reveal_strlit("all_punctuation");
    // The API values differ pairwise in their last character, and every
    // descriptive spelling differs from them in length.
    assert("cut0"@[3] == '0' && "cut1"@[3] == '1' && "cut2"@[3] == '2' && "cut3"@[3] == '3'
        && "cut4"@[3] == '4' && "cut5"@[3] == '5');
    assert("cut0"@.len() == 4 && "no_split"@.len() == 8 && "four_sentences"@.len() == 14
        && "fifty_chars"@.len() == 11 && "chinese_period"@.len() == 14
        && "english_period"@.len() == 14 && "all_punctuation"@.len() == 15);
}

/// The configuration values the coordination core reads, parsed once per
/// path and held for the life of the process.
#[derive(Debug, Clone)]
pub struct GeneralConfig {
    pub cache_dir: String,
    pub prefetch_count: usize,
    pub log_file: String,
    pub server_port: u16,
    pub max_concurrent_tts: usize,
    pub text_list_path: String,
}

/// A parsed configuration memoized under the path it came from.
pub struct CachedConfig {
    pub path: String,
    pub config: GeneralConfig,
}

/// The per-path configuration memo.  The first caller for a path pays the
/// parse cost (in the unverified shell); later callers read the stored copy.
/// Never invalidated: a file changed on disk after first load is not re-read.
pub struct ConfigCache {
    pub entries: Vec<CachedConfig>,
}

impl ConfigCache {
    /// Whether a configuration is memoized for a path.
    pub open spec fn has_config(&self, path: Seq<char>) -> bool {
        exists|k: int| 0 <= k < self.entries@.len() && self.entries@[k].path@ == path
    }

    /// An empty memo.
    pub fn new() -> (r: ConfigCache)
        ensures
            forall|p: Seq<char>| !r.has_config(p),
    {
        ConfigCache { entries: Vec::new() }
    }

    /// Looks up the memoized configuration for a path.
    pub fn get(&self, config_path: &str) -> (r: Option<&GeneralConfig>)
        ensures
            r is Some <==> self.has_config(config_path@),
            r matches Some(c) ==> exists|k: int|
                0 <= k < self.entries@.len() && self.entries@[k].path@ == config_path@ && *c
                    == self.entries@[k].config,
    {
        let n = self.entries.len();
        let mut i: usize = 0;
        while i < n
            invariant
                i <= n,
                n == self.entries@.len(),
                forall|k: int| 0 <= k < i ==> self.entries@[k].path@ != config_path@,
            decreases n - i,
        {
            let e = &self.entries[i];
            if str_eq(e.path.as_str(), config_path) {
                return Some(&e.config);
            }
            i = i + 1;
        }
        None
    }

    /// Memoizes a freshly parsed configuration under its path.  The first
    /// load wins: a configuration already stored for the path stays as it is.
    pub fn insert(&mut self, config_path: &str, config: GeneralConfig)
        ensures
            old(self).has_config(config_path@) ==> final(self).entries == old(self).entries,
            !old(self).has_config(config_path@) ==> {
                &&& final(self).entries@.len() == old(self).entries@.len() + 1
                &&& final(self).entries@.drop_last() == old(self).entries@
                &&& final(self).entries@.last().path@ == config_path@
                &&& final(self).entries@.last().config == config
            },
            forall|p: Seq<char>|
                #[trigger] final(self).has_config(p) <==> (old(self).has_config(p) || p
                    == config_path@),
    {
        if self.get(config_path).is_some() {
            return ;
        }
        let entry = CachedConfig { path: String::from_str(config_path), config };
        self.entries.push(entry);
        proof {
            let lists = self.entries@;
            let before = old(self).entries@;
            assert forall|p: Seq<char>|
                #[trigger] self.has_config(p) <==> (old(self).has_config(p) || p
                    == config_path@) by {
                if self.has_config(p) {
                    let k = choose|k: int| 0 <= k < lists.len() && lists[k].path@ == p;
                    if k < before.len() {
                        assert(before[k].path@ == p);
                    }
                }
                if old(self).has_config(p) {
                    let k = choose|k: int| 0 <= k < before.len() && before[k].path@ == p;
                    assert(lists[k].path@ == p);
                }
                if p == config_path@ {
                    assert(lists[lists.len() - 1].path@ == p);
                }
            }
        }
    }
}

} // verus!
