//! Configuration values: what the process needs to start, and the catalogue
//! of assets, pairs and venues that alerts may name.
//!
//! Nothing here reads the environment or a file.  The caller reads, and hands
//! the values over.

use crate::decimal::{all_digits, digits_value, read_digits, Decimal};
use crate::text::{clone_texts, contains_text, texts};
use vstd::prelude::*;
use vstd::string::*;

verus! {

/// Seconds between two monitoring cycles where none are configured.
pub const DEFAULT_CHECK_INTERVAL: u64 = 300;

/// Why the process cannot start.
#[derive(Debug, Clone, Copy, PartialEq, Eq, Structural)]
pub enum ConfigError {
    /// No token for the notification service was given.
    MissingTelegramToken,
    /// No key for the price service was given.
    MissingApiKey,
    /// The catalogue lists a cryptocurrency, a stablecoin or a pair twice.
    DuplicateEntry,
    /// The catalogue names no venue.
    NoExchange,
}

/// What the process needs to start.
#[derive(Debug, Clone)]
pub struct AppConfig {
    pub database_url: String,
    pub coingecko_api_key: String,
    pub telegram_token: String,
    pub check_interval: u64,
}

/// The number that a text writes without a sign or behind a plus sign, in
/// digits and nothing else, if it is at most the largest 64-bit number.
pub open spec fn unsigned_of(s: Seq<char>) -> Option<nat> {
    let digits = if s.len() > 0 && s[0] == '+' {
        s.subrange(1, s.len() as int)
    } else {
        s
    };
    if digits.len() > 0 && all_digits(digits) && digits_value(digits) <= u64::MAX {
        Some(digits_value(digits))
    } else {
        None
    }
}

/// The number of seconds that a text asks for: the number it writes, or the
/// default where there is no text or the text writes no number.
pub open spec fn interval_of(text: Option<Seq<char>>) -> u64 {
    match text {
        Some(s) => match unsigned_of(s) {
            Some(seconds) => seconds as u64,
            None => DEFAULT_CHECK_INTERVAL,
        },
        None => DEFAULT_CHECK_INTERVAL,
    }
}

/// The number that a text writes, as [`unsigned_of`] defines it.
pub fn parse_unsigned(text: &str) -> (r: Option<u64>)
    ensures
        r is Some <==> unsigned_of(text@) is Some,
        r is Some ==> r->0 == unsigned_of(text@)->0,
{
    let ghost s = text@;
    let ghost digits = if s.len() > 0 && s[0] == '+' {
        s.subrange(1, s.len() as int)
    } else {
        s
    };
    if !text.is_ascii() {
        proof {
            let i = choose|i: int| 0 <= i < s.len() && !('\0' <= #[trigger] s[i] <= '\u{7f}');
            if s.len() > 0 && s[0] == '+' {
                assert(digits[i - 1] == s[i]);
                assert(!crate::decimal::is_digit(digits[i - 1]));
            } else {
                assert(!crate::decimal::is_digit(digits[i]));
            }
        }
        return None;
    }
    let n = text.as_bytes().len();
    proof {
        vstd::string::is_ascii_spec_bytes(text);
    }
    if n == 0 {
        return None;
    }
    let from: usize = if text.get_ascii(0) == 43u8 {
        1
    } else {
        0
    };
    proof {
        assert(s.subrange(from as int, n as int) =~= digits);
    }
    if from == n {
        return None;
    }
    read_digits(text, from, n, u64::MAX)
}

/// The number of seconds between two monitoring cycles that a configured text
/// asks for, with the default for a missing or unreadable text.
pub fn parse_check_interval(text: Option<&str>) -> (seconds: u64)
    ensures
        seconds == interval_of(
            match text {
                Some(s) => Some(s@),
                None => None,
            },
        ),
{
    match text {
        Some(s) => match parse_unsigned(s) {
            Some(seconds) => seconds,
            None => DEFAULT_CHECK_INTERVAL,
        },
        None => DEFAULT_CHECK_INTERVAL,
    }
}

impl AppConfig {
    /// The configuration made of the values that were read.
    ///
    /// The token and the key are required.  The database defaults to one in
    /// memory, the interval to [`DEFAULT_CHECK_INTERVAL`].
    pub fn from_values(
        database_url: Option<String>,
        coingecko_api_key: Option<String>,
        telegram_token: Option<String>,
        check_interval: Option<&str>,
    ) -> (r: Result<AppConfig, ConfigError>)
        ensures
            coingecko_api_key is None ==> r == Err::<AppConfig, ConfigError>(
                ConfigError::MissingApiKey,
            ),
            coingecko_api_key is Some && telegram_token is None ==> r == Err::<
                AppConfig,
                ConfigError,
            >(ConfigError::MissingTelegramToken),
            coingecko_api_key is Some && telegram_token is Some ==> r is Ok && {
                let c = r->Ok_0;
                &&& c.coingecko_api_key@ == coingecko_api_key->0@
                &&& c.telegram_token@ == telegram_token->0@
                &&& c.database_url@ == match database_url {
                    Some(u) => u@,
                    None => "sqlite::memory:"@,
                }
                &&& c.check_interval == interval_of(
                    match check_interval {
                        Some(s) => Some(s@),
                        None => None,
                    },
                )
            },
    {
        let key = match coingecko_api_key {
            Some(k) => k,
            None => {
                return Err(ConfigError::MissingApiKey);
            },
        };
        let token = match telegram_token {
            Some(t) => t,
            None => {
                return Err(ConfigError::MissingTelegramToken);
            },
        };
        let url = match database_url {
            Some(u) => u,
            None => String::from_str("sqlite::memory:"),
        };
        Ok(
            AppConfig {
                database_url: url,
                coingecko_api_key: key,
                telegram_token: token,
                check_interval: parse_check_interval(check_interval),
            },
        )
    }
}

/// What a process needs that only watches prices and notifies.
#[derive(Debug, Clone)]
pub struct Config {
    pub telegram_token: String,
    pub coingecko_api_key: String,
    pub check_interval: u64,
    pub database_url: String,
}

impl Config {
    /// The configuration made of the values that were read.
    ///
    /// The token is asked for first, then the key.  The interval defaults to
    /// [`DEFAULT_CHECK_INTERVAL`], the database to one in memory.
    pub fn new(
        telegram_token: Option<String>,
        coingecko_api_key: Option<String>,
        check_interval: Option<&str>,
        database_url: Option<String>,
    ) -> (r: Result<Config, ConfigError>)
        ensures
            telegram_token is None ==> r == Err::<Config, ConfigError>(
                ConfigError::MissingTelegramToken,
            ),
            telegram_token is Some && coingecko_api_key is None ==> r == Err::<Config, ConfigError>(
                ConfigError::MissingApiKey,
            ),
            telegram_token is Some && coingecko_api_key is Some ==> r is Ok && {
                let c = r->Ok_0;
                &&& c.telegram_token@ == telegram_token->0@
                &&& c.coingecko_api_key@ == coingecko_api_key->0@
                &&& c.check_interval == interval_of(
                    match check_interval {
                        Some(s) => Some(s@),
                        None => None,
                    },
                )
                &&& c.database_url@ == match database_url {
                    Some(u) => u@,
                    None => "sqlite::memory:"@,
                }
            },
    {
        let token = match telegram_token {
            Some(t) => t,
            None => {
                return Err(ConfigError::MissingTelegramToken);
            },
        };
        let key = match coingecko_api_key {
            Some(k) => k,
            None => {
                return Err(ConfigError::MissingApiKey);
            },
        };
        let url = match database_url {
            Some(u) => u,
            None => String::from_str("sqlite::memory:"),
        };
        Ok(
            Config {
                telegram_token: token,
                coingecko_api_key: key,
                check_interval: parse_check_interval(check_interval),
                database_url: url,
            },
        )
    }
}

/// The venues that a deployment supports.
#[derive(Debug, Clone)]
pub struct ExchangeConfig {
    pub supported: Vec<String>,
}

/// A cryptocurrency that alerts may name.
#[derive(Debug, Clone)]
pub struct CryptoInfo {
    pub name: String,
    pub coingecko_id: String,
}

/// A stablecoin and the price it is pegged to.
#[derive(Debug, Clone)]
pub struct StablecoinInfo {
    pub name: String,
    pub target_price: Decimal,
}

/// A pair of tokens and the ratio expected between their prices.
#[derive(Debug, Clone)]
pub struct PairInfo {
    pub token1: String,
    pub token2: String,
    pub expected_ratio: Decimal,
}

/// The catalogue: cryptocurrencies and stablecoins by symbol, pairs by name,
/// the venues, and the seconds between two monitoring cycles.
#[derive(Debug, Clone)]
pub struct CryptoConfig {
    pub cryptocurrencies: Vec<(String, CryptoInfo)>,
    pub stablecoins: Vec<(String, StablecoinInfo)>,
    pub synthetic_pairs: Vec<(String, PairInfo)>,
    pub exchanges: Vec<String>,
    pub check_interval: u64,
}

/// The view of a [`CryptoConfig`]: the symbols, the pairs and the venues, each
/// in the order of the catalogue.
pub struct CryptoConfigView {
    pub cryptocurrencies: Seq<Seq<char>>,
    pub stablecoins: Seq<Seq<char>>,
    pub pair_names: Seq<Seq<char>>,
    pub pairs: Seq<(Seq<char>, Seq<char>)>,
    pub pair_ratios: Seq<nat>,
    pub exchanges: Seq<Seq<char>>,
    pub check_interval: u64,
}

/// The symbols of the cryptocurrencies of a catalogue.
pub open spec fn crypto_symbols(entries: Seq<(String, CryptoInfo)>) -> Seq<Seq<char>> {
    Seq::new(entries.len(), |i: int| entries[i].0@)
}

/// The symbols of the stablecoins of a catalogue.
pub open spec fn stable_symbols(entries: Seq<(String, StablecoinInfo)>) -> Seq<Seq<char>> {
    Seq::new(entries.len(), |i: int| entries[i].0@)
}

/// The names of the pairs of a catalogue.
pub open spec fn pair_names(entries: Seq<(String, PairInfo)>) -> Seq<Seq<char>> {
    Seq::new(entries.len(), |i: int| entries[i].0@)
}

/// The two tokens of each pair of a catalogue.
pub open spec fn pair_tokens(entries: Seq<(String, PairInfo)>) -> Seq<(Seq<char>, Seq<char>)> {
    Seq::new(entries.len(), |i: int| (entries[i].1.token1@, entries[i].1.token2@))
}

/// The ratio expected of each pair of a catalogue, in units.
pub open spec fn pair_ratios(entries: Seq<(String, PairInfo)>) -> Seq<nat> {
    Seq::new(entries.len(), |i: int| entries[i].1.expected_ratio.units())
}

/// The views of a sequence of pairs of texts.
pub open spec fn text_pairs(pairs: Seq<(String, String)>) -> Seq<(Seq<char>, Seq<char>)> {
    Seq::new(pairs.len(), |i: int| (pairs[i].0@, pairs[i].1@))
}

/// Whether no text occurs twice.
pub open spec fn distinct(s: Seq<Seq<char>>) -> bool {
    forall|i: int, j: int| 0 <= i < j < s.len() ==> s[i] != s[j]
}

impl View for CryptoConfig {
    type V = CryptoConfigView;

    open spec fn view(&self) -> CryptoConfigView {
        CryptoConfigView {
            cryptocurrencies: crypto_symbols(self.cryptocurrencies@),
            stablecoins: stable_symbols(self.stablecoins@),
            pair_names: pair_names(self.synthetic_pairs@),
            pairs: pair_tokens(self.synthetic_pairs@),
            pair_ratios: pair_ratios(self.synthetic_pairs@),
            exchanges: texts(self.exchanges@),
            check_interval: self.check_interval,
        }
    }
}

impl CryptoConfigView {
    /// Whether the catalogue is one that a process may start with: no
    /// cryptocurrency, stablecoin or pair is listed twice, and there is a
    /// venue.
    pub open spec fn wf(self) -> bool {
        &&& distinct(self.cryptocurrencies)
        &&& distinct(self.stablecoins)
        &&& distinct(self.pair_names)
        &&& self.exchanges.len() > 0
    }

    /// Whether the pair `token1`, `token2` is in the catalogue, in this order
    /// or the other.
    pub open spec fn has_pair(self, token1: Seq<char>, token2: Seq<char>) -> bool {
        self.pairs.contains((token1, token2)) || self.pairs.contains((token2, token1))
    }

    /// Whether pair number `i` is the first of the catalogue that is made of
    /// `token1` and `token2`, in this order or the other.
    pub open spec fn is_first_pair(self, token1: Seq<char>, token2: Seq<char>, i: int) -> bool {
        &&& 0 <= i < self.pairs.len()
        &&& (self.pairs[i] == (token1, token2) || self.pairs[i] == (token2, token1))
        &&& forall|j: int|
            0 <= j < i ==> (#[trigger] self.pairs[j]) != (token1, token2) && self.pairs[j] != (
                token2,
                token1,
            )
    }

    /// The number of the first pair of the catalogue that is made of
    /// `token1` and `token2`, in this order or the other, if there is one.
    pub open spec fn pair_index(self, token1: Seq<char>, token2: Seq<char>) -> Option<int> {
        if exists|i: int| self.is_first_pair(token1, token2, i) {
            Some(choose|i: int| self.is_first_pair(token1, token2, i))
        } else {
            None
        }
    }
}

impl CryptoConfig {
    /// An empty catalogue with the given interval.
    pub fn new(check_interval: u64) -> (config: CryptoConfig)
        ensures
            config@.cryptocurrencies.len() == 0,
            config@.stablecoins.len() == 0,
            config@.pair_names.len() == 0,
            config@.pairs.len() == 0,
            config@.pair_ratios.len() == 0,
            config@.exchanges.len() == 0,
            config@.check_interval == check_interval,
    {
        CryptoConfig {
            cryptocurrencies: Vec::new(),
            stablecoins: Vec::new(),
            synthetic_pairs: Vec::new(),
            exchanges: Vec::new(),
            check_interval,
        }
    }

    /// The text under which a symbol is shown: the symbol itself.
    pub fn get_symbol_display(&self, symbol: &str) -> (shown: String)
        ensures
            shown@ == symbol@,
    {
        String::from_str(symbol)
    }

    /// The symbols of the cryptocurrencies, in the order of the catalogue.
    pub fn get_supported_symbols(&self) -> (symbols: Vec<String>)
        ensures
            texts(symbols@) == self@.cryptocurrencies,
    {
        let mut symbols: Vec<String> = Vec::new();
        let mut i: usize = 0;
        while i < self.cryptocurrencies.len()
            invariant
                i <= self.cryptocurrencies.len(),
                symbols.len() == i,
                forall|j: int| 0 <= j < i ==> (#[trigger] symbols@[j])@ == self.cryptocurrencies@[j].0@,
            decreases self.cryptocurrencies.len() - i,
        {
            symbols.push(self.cryptocurrencies[i].0.clone());
            i += 1;
        }
        proof {
            assert(texts(symbols@) =~= self@.cryptocurrencies);
        }
        symbols
    }

    /// The symbols of the stablecoins, in the order of the catalogue.
    pub fn get_stablecoins(&self) -> (symbols: Vec<String>)
        ensures
            texts(symbols@) == self@.stablecoins,
    {
        let mut symbols: Vec<String> = Vec::new();
        let mut i: usize = 0;
        while i < self.stablecoins.len()
            invariant
                i <= self.stablecoins.len(),
                symbols.len() == i,
                forall|j: int| 0 <= j < i ==> (#[trigger] symbols@[j])@ == self.stablecoins@[j].0@,
            decreases self.stablecoins.len() - i,
        {
            symbols.push(self.stablecoins[i].0.clone());
            i += 1;
        }
        proof {
            assert(texts(symbols@) =~= self@.stablecoins);
        }
        symbols
    }

    /// The two tokens of each pair, in the order of the catalogue.
    pub fn get_supported_pairs(&self) -> (pairs: Vec<(String, String)>)
        ensures
            text_pairs(pairs@) == self@.pairs,
    {
        let mut pairs: Vec<(String, String)> = Vec::new();
        let mut i: usize = 0;
        while i < self.synthetic_pairs.len()
            invariant
                i <= self.synthetic_pairs.len(),
                pairs.len() == i,
                forall|j: int|
                    0 <= j < i ==> (#[trigger] pairs@[j]).0@ == self.synthetic_pairs@[j].1.token1@
                        && pairs@[j].1@ == self.synthetic_pairs@[j].1.token2@,
            decreases self.synthetic_pairs.len() - i,
        {
            let info = &self.synthetic_pairs[i].1;
            pairs.push((info.token1.clone(), info.token2.clone()));
            i += 1;
        }
        proof {
            assert(text_pairs(pairs@) =~= self@.pairs);
        }
        pairs
    }

    /// Whether prices can be asked of the venue `exchange`.
    pub fn is_supported_exchange(&self, exchange: &str) -> (supported: bool)
        ensures
            supported == self@.exchanges.contains(exchange@),
    {
        contains_text(&self.exchanges, exchange)
    }

    /// The seconds between two monitoring cycles.
    pub fn get_check_interval(&self) -> (seconds: u64)
        ensures
            seconds == self@.check_interval,
    {
        self.check_interval
    }

    /// The venues, in the order of the catalogue.
    pub fn get_exchanges(&self) -> (venues: Vec<String>)
        ensures
            texts(venues@) == self@.exchanges,
    {
        clone_texts(&self.exchanges)
    }

    /// Whether `symbol` is a cryptocurrency of the catalogue.
    pub fn is_supported_symbol(&self, symbol: &str) -> (supported: bool)
        ensures
            supported == self@.cryptocurrencies.contains(symbol@),
    {
        let mut i: usize = 0;
        while i < self.cryptocurrencies.len()
            invariant
                i <= self.cryptocurrencies.len(),
                forall|j: int| 0 <= j < i ==> self.cryptocurrencies@[j].0@ != symbol@,
            decreases self.cryptocurrencies.len() - i,
        {
            if crate::text::same_text(self.cryptocurrencies[i].0.as_str(), symbol) {
                proof {
                    assert(self@.cryptocurrencies[i as int] == symbol@);
                }
                return true;
            }
            i += 1;
        }
        false
    }

    /// Whether `symbol` is a stablecoin of the catalogue.
    pub fn is_supported_stablecoin(&self, symbol: &str) -> (supported: bool)
        ensures
            supported == self@.stablecoins.contains(symbol@),
    {
        let mut i: usize = 0;
        while i < self.stablecoins.len()
            invariant
                i <= self.stablecoins.len(),
                forall|j: int| 0 <= j < i ==> self.stablecoins@[j].0@ != symbol@,
            decreases self.stablecoins.len() - i,
        {
            if crate::text::same_text(self.stablecoins[i].0.as_str(), symbol) {
                proof {
                    assert(self@.stablecoins[i as int] == symbol@);
                }
                return true;
            }
            i += 1;
        }
        false
    }

    /// The number of the first pair of the catalogue that is made of
    /// `token1` and `token2`, in this order or the other, if there is one.
    pub fn find_pair(&self, token1: &str, token2: &str) -> (found: Option<usize>)
        ensures
            found matches Some(i) ==> self@.pair_index(token1@, token2@) == Some(i as int) && i
                < self.synthetic_pairs.len(),
            found is None ==> self@.pair_index(token1@, token2@) is None,
    {
        let mut i: usize = 0;
        while i < self.synthetic_pairs.len()
            invariant
                i <= self.synthetic_pairs.len(),
                forall|j: int|
                    0 <= j < i ==> (#[trigger] self@.pairs[j]) != (token1@, token2@)
                        && self@.pairs[j] != (token2@, token1@),
            decreases self.synthetic_pairs.len() - i,
        {
            let info = &self.synthetic_pairs[i].1;
            let a = info.token1.as_str();
            let b = info.token2.as_str();
            let straight = crate::text::same_text(a, token1) && crate::text::same_text(b, token2);
            let swapped = crate::text::same_text(a, token2) && crate::text::same_text(b, token1);
            proof {
                assert(self@.pairs[i as int] == (info.token1@, info.token2@));
            }
            if straight || swapped {
                proof {
                    assert(self@.is_first_pair(token1@, token2@, i as int));
                    let k = choose|k: int| self@.is_first_pair(token1@, token2@, k);
                    if k < i {
                        assert(self@.pairs[k] != (token1@, token2@));
                    }
                    if i < k {
                        assert(self@.pairs[i as int] != (token1@, token2@) && self@.pairs[i as int]
                            != (token2@, token1@));
                    }
                }
                return Some(i);
            }
            i += 1;
        }
        proof {
            if exists|k: int| self@.is_first_pair(token1@, token2@, k) {
                let k = choose|k: int| self@.is_first_pair(token1@, token2@, k);
                assert(self@.pairs[k] != (token1@, token2@) && self@.pairs[k] != (token2@, token1@));
            }
        }
        None
    }

    /// Whether the pair of `token1` and `token2` is in the catalogue, in this
    /// order or the other.
    pub fn is_supported_pair(&self, token1: &str, token2: &str) -> (supported: bool)
        ensures
            supported == self@.has_pair(token1@, token2@),
    {
        let mut i: usize = 0;
        while i < self.synthetic_pairs.len()
            invariant
                i <= self.synthetic_pairs.len(),
                forall|j: int|
                    0 <= j < i ==> (#[trigger] self@.pairs[j]) != (token1@, token2@)
                        && self@.pairs[j] != (token2@, token1@),
            decreases self.synthetic_pairs.len() - i,
        {
            let info = &self.synthetic_pairs[i].1;
            let a = info.token1.as_str();
            let b = info.token2.as_str();
            let straight = crate::text::same_text(a, token1) && crate::text::same_text(b, token2);
            let swapped = crate::text::same_text(a, token2) && crate::text::same_text(b, token1);
            proof {
                assert(self@.pairs[i as int] == (info.token1@, info.token2@));
            }
            if straight || swapped {
                return true;
            }
            i += 1;
        }
        false
    }
}

/// Whether no text occurs twice among the characters given for each.
fn all_distinct(keys: &Vec<Vec<char>>) -> (ok: bool)
    ensures
        ok == distinct(Seq::new(keys.len() as nat, |i: int| keys@[i]@)),
{
    let ghost views = Seq::new(keys.len() as nat, |i: int| keys@[i]@);
    let mut j: usize = 0;
    while j < keys.len()
        invariant
            j <= keys.len(),
            views == Seq::new(keys.len() as nat, |i: int| keys@[i]@),
            forall|a: int, b: int| 0 <= a < b < j ==> views[a] != views[b],
        decreases keys.len() - j,
    {
        let mut i: usize = 0;
        while i < j
            invariant
                i <= j < keys.len(),
                views == Seq::new(keys.len() as nat, |i: int| keys@[i]@),
                forall|a: int| 0 <= a < i ==> views[a] != views[j as int],
            decreases j - i,
        {
            if crate::text::same_chars(&keys[i], &keys[j]) {
                proof {
                    assert(views[i as int] == views[j as int]);
                }
                return false;
            }
            i += 1;
        }
        j += 1;
    }
    true
}

impl CryptoConfig {
    /// Checks that the catalogue is one that a process may start with.
    pub fn validate(&self) -> (r: Result<(), ConfigError>)
        ensures
            r is Ok <==> self@.wf(),
            r is Err ==> r->Err_0 == (if self@.exchanges.len() == 0 {
                ConfigError::NoExchange
            } else {
                ConfigError::DuplicateEntry
            }),
    {
        if self.exchanges.len() == 0 {
            return Err(ConfigError::NoExchange);
        }
        let mut cryptos: Vec<Vec<char>> = Vec::new();
        let mut i: usize = 0;
        while i < self.cryptocurrencies.len()
            invariant
                i <= self.cryptocurrencies.len(),
                cryptos.len() == i,
                forall|k: int| 0 <= k < i ==> (#[trigger] cryptos@[k])@ == self.cryptocurrencies@[k].0@,
            decreases self.cryptocurrencies.len() - i,
        {
            cryptos.push(crate::text::to_chars(self.cryptocurrencies[i].0.as_str()));
            i += 1;
        }
        let mut stables: Vec<Vec<char>> = Vec::new();
        let mut i: usize = 0;
        while i < self.stablecoins.len()
            invariant
                i <= self.stablecoins.len(),
                stables.len() == i,
                forall|k: int| 0 <= k < i ==> (#[trigger] stables@[k])@ == self.stablecoins@[k].0@,
            decreases self.stablecoins.len() - i,
        {
            stables.push(crate::text::to_chars(self.stablecoins[i].0.as_str()));
            i += 1;
        }
        let mut names: Vec<Vec<char>> = Vec::new();
        let mut i: usize = 0;
        while i < self.synthetic_pairs.len()
            invariant
                i <= self.synthetic_pairs.len(),
                names.len() == i,
                forall|k: int| 0 <= k < i ==> (#[trigger] names@[k])@ == self.synthetic_pairs@[k].0@,
            decreases self.synthetic_pairs.len() - i,
        {
            names.push(crate::text::to_chars(self.synthetic_pairs[i].0.as_str()));
            i += 1;
        }
        proof {
            assert(Seq::new(cryptos.len() as nat, |i: int| cryptos@[i]@) =~= self@.cryptocurrencies);
            assert(Seq::new(stables.len() as nat, |i: int| stables@[i]@) =~= self@.stablecoins);
            assert(Seq::new(names.len() as nat, |i: int| names@[i]@) =~= self@.pair_names);
            assert(self@.exchanges.len() == self.exchanges@.len());
        }
        if all_distinct(&cryptos) && all_distinct(&stables) && all_distinct(&names) {
            Ok(())
        } else {
            Err(ConfigError::DuplicateEntry)
        }
    }
}

/// A cryptocurrency and the venues at which its price can be asked.
#[derive(Debug, Clone)]
pub struct CoinInfo {
    pub symbol: String,
    pub name: String,
    pub supported_exchanges: Vec<String>,
}

/// The cryptocurrencies of a catalogue, each under its symbol as its name
/// and with all venues of the catalogue.
pub fn get_supported_coins(config: &CryptoConfig) -> (coins: Vec<CoinInfo>)
    ensures
        coins.len() == config@.cryptocurrencies.len(),
        forall|i: int|
            0 <= i < coins.len() ==> {
                &&& (#[trigger] coins[i]).symbol@ == config@.cryptocurrencies[i]
                &&& coins[i].name@ == config@.cryptocurrencies[i]
                &&& texts(coins[i].supported_exchanges@) == config@.exchanges
            },
{
    let mut coins: Vec<CoinInfo> = Vec::new();
    let mut i: usize = 0;
    while i < config.cryptocurrencies.len()
        invariant
            i <= config.cryptocurrencies.len(),
            coins.len() == i,
            forall|k: int|
                0 <= k < i ==> {
                    &&& (#[trigger] coins[k]).symbol@ == config.cryptocurrencies@[k].0@
                    &&& coins[k].name@ == config.cryptocurrencies@[k].0@
                    &&& texts(coins[k].supported_exchanges@) == texts(config.exchanges@)
                },
        decreases config.cryptocurrencies.len() - i,
    {
        let symbol = &config.cryptocurrencies[i].0;
        coins.push(
            CoinInfo {
                symbol: symbol.clone(),
                name: symbol.clone(),
                supported_exchanges: clone_texts(&config.exchanges),
            },
        );
        i += 1;
    }
    coins
}

/// The symbols of the cryptocurrencies of a catalogue.
pub fn get_supported_tokens(config: &CryptoConfig) -> (symbols: Vec<String>)
    ensures
        texts(symbols@) == config@.cryptocurrencies,
{
    config.get_supported_symbols()
}

/// The symbols of the stablecoins of a catalogue.
pub fn get_supported_stablecoins(config: &CryptoConfig) -> (symbols: Vec<String>)
    ensures
        texts(symbols@) == config@.stablecoins,
{
    config.get_stablecoins()
}

/// The two tokens of each pair of a catalogue.
pub fn get_supported_pairs(config: &CryptoConfig) -> (pairs: Vec<(String, String)>)
    ensures
        text_pairs(pairs@) == config@.pairs,
{
    config.get_supported_pairs()
}

} // verus!
