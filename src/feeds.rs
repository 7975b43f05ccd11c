use vstd::prelude::*;

verus! {

/// One story of the news feed.
#[derive(Debug, Clone)]
pub struct HnStory {
    pub id: u64,
    pub title: String,
    pub url: Option<String>,
    pub score: u32,
    pub by: String,
    pub descendants: u32,
}

/// One stock quote. Prices are held in cents, the relative change in
/// basis points (hundredths of a percent), truncated toward zero.
#[derive(Debug, Clone)]
pub struct StockQuote {
    pub symbol: String,
    pub price_cents: u32,
    pub change_cents: i64,
    pub change_basis_points: i64,
    pub name: String,
}

/// One item of a syndicated feed.
#[derive(Debug, Clone)]
pub struct RssItem {
    pub title: String,
    pub link: Option<String>,
    pub published: Option<String>,
    pub source: String,
}

/// One sports event.
#[derive(Debug, Clone)]
pub struct SportsEvent {
    pub league: String,
    pub home_team: String,
    pub away_team: String,
    pub home_score: Option<u32>,
    pub away_score: Option<u32>,
    pub status: String,
    pub start_time: Option<String>,
}

/// The content a panel shows: one list per feed kind, or a loading or error state.
#[derive(Debug, Clone)]
pub enum FeedData {
    HackerNews(Vec<HnStory>),
    Stocks(Vec<StockQuote>),
    Rss(Vec<RssItem>),
    Sports(Vec<SportsEvent>),
    Loading,
    Error(String),
}

/// A snapshot addressed to the panel whose id is `widget_id`.
#[derive(Debug, Clone)]
pub struct FeedMessage {
    pub widget_id: String,
    pub data: FeedData,
}

/// Number of items a snapshot holds; the loading and error states hold none.
pub open spec fn content_len(d: FeedData) -> nat {
    match d {
        FeedData::HackerNews(v) => v@.len(),
        FeedData::Stocks(v) => v@.len(),
        FeedData::Rss(v) => v@.len(),
        FeedData::Sports(v) => v@.len(),
        FeedData::Loading => 0,
        FeedData::Error(_) => 0,
    }
}

impl FeedData {
    /// The number of items in this snapshot.
    pub fn len(&self) -> (r: usize)
        ensures
            r == content_len(*self),
    {
        match self {
            FeedData::HackerNews(v) => v.len(),
            FeedData::Stocks(v) => v.len(),
            FeedData::Rss(v) => v.len(),
            FeedData::Sports(v) => v.len(),
            FeedData::Loading => 0,
            FeedData::Error(_) => 0,
        }
    }

    pub fn is_error(&self) -> (r: bool)
        ensures
            r == (*self is Error),
    {
        match self {
            FeedData::Error(_) => true,
            _ => false,
        }
    }
}

/// The values that survive out of a list of best-effort results, in order.
pub open spec fn successes<T>(s: Seq<Option<T>>) -> Seq<T>
    decreases s.len(),
{
    if s.len() == 0 {
        Seq::empty()
    } else {
        let rest = successes(s.drop_last());
        match s.last() {
            Some(x) => rest.push(x),
            None => rest,
        }
    }
}

/// Keeps the items that were fetched and silently drops the ones that failed.
pub fn keep_successes<T>(results: Vec<Option<T>>) -> (r: Vec<T>)
    ensures
        r@ == successes(results@),
{
    let mut out: Vec<T> = Vec::new();
    let mut rest = results;
    let ghost all = rest@;
    let total: usize = rest.len();
    let mut i: usize = 0;
    while rest.len() > 0
        invariant
            rest@.len() + i == all.len(),
            all.len() == total,
            rest@ == all.subrange(i as int, all.len() as int),
            out@ == successes(all.subrange(0, i as int)),
        decreases rest@.len(),
    {
        let item = rest.remove(0);
        proof {
            let pre = all.subrange(0, i as int + 1);
            assert(pre.drop_last() =~= all.subrange(0, i as int));
            assert(pre.last() == all[i as int]);
        }
        match item {
            Some(x) => out.push(x),
            None => {},
        }
        i = i + 1;
        assert(rest@ =~= all.subrange(i as int, all.len() as int));
    }
    assert(all.subrange(0, i as int) =~= all);
    out
}


/// The decimal digits of `n`, most significant first, with no leading zero.
pub open spec fn decimal(n: nat) -> Seq<char>
    decreases n,
{
    if n < 10 {
        seq![digit_char(n)]
    } else {
        decimal(n / 10).push(digit_char(n % 10))
    }
}

pub open spec fn digit_char(d: nat) -> char {
    (('0' as nat) + d) as char
}

fn digit_str(d: u64) -> (r: &'static str)
    requires
        d < 10,
    ensures
        r@ == seq![digit_char(d as nat)],
{
    proof {
        reveal_strlit("0");
        reveal_strlit("1");
        reveal_strlit("2");
        reveal_strlit("3");
        reveal_strlit("4");
        reveal_strlit("5");
        reveal_strlit("6");
        reveal_strlit("7");
        reveal_strlit("8");
        reveal_strlit("9");
    }
    let r = if d == 0 {
        "0"
    } else if d == 1 {
        "1"
    } else if d == 2 {
        "2"
    } else if d == 3 {
        "3"
    } else if d == 4 {
        "4"
    } else if d == 5 {
        "5"
    } else if d == 6 {
        "6"
    } else if d == 7 {
        "7"
    } else if d == 8 {
        "8"
    } else {
        "9"
    };
    assert(r@ =~= seq![digit_char(d as nat)]);
    r
}

/// Writes `n` in decimal.
pub fn to_decimal(n: u64) -> (r: String)
    ensures
        r@ == decimal(n as nat),
    decreases n,
{
    if n < 10 {
        String::from_str(digit_str(n))
    } else {
        let head = to_decimal(n / 10);
        head.concat(digit_str(n % 10))
    }
}

/// Base address of the news API.
pub open spec fn hn_api_base() -> Seq<char> {
    "https://hacker-news.firebaseio.com/v0"@
}

/// Fetches the top stories of one story list of the news API.
#[derive(Debug, Clone)]
pub struct HnFetcher {
    pub story_type: String,
    pub story_count: usize,
}

impl HnFetcher {
    pub fn new(story_type: String, story_count: usize) -> (r: Self)
        ensures
            r.story_type == story_type,
            r.story_count == story_count,
    {
        HnFetcher { story_type, story_count }
    }

    /// Address of the list of story ids.
    pub fn story_ids_url(&self) -> (r: String)
        ensures
            r@ == hn_api_base() + "/"@ + self.story_type@ + "stories.json"@,
    {
        let mut r = String::from_str("https://hacker-news.firebaseio.com/v0");
        r.append("/");
        r.append(self.story_type.as_str());
        r.append("stories.json");
        r
    }

    /// Address of one story.
    pub fn story_url(&self, id: u64) -> (r: String)
        ensures
            r@ == hn_api_base() + "/item/"@ + decimal(id as nat) + ".json"@,
    {
        let mut r = String::from_str("https://hacker-news.firebaseio.com/v0");
        r.append("/item/");
        let digits = to_decimal(id);
        r.append(digits.as_str());
        r.append(".json");
        r
    }

    /// The ids to fetch: the first `story_count` of the list, in order.
    pub fn select_ids(&self, ids: Vec<u64>) -> (r: Vec<u64>)
        ensures
            r@ == ids@.take(
                if self.story_count < ids@.len() { self.story_count as int } else { ids@.len() as int },
            ),
    {
        let mut ids = ids;
        ids.truncate(self.story_count);
        ids
    }

    /// Shapes one fetched item into a story, filling absent fields with
    /// "No title", "unknown" and zero.
    pub fn story_from_item(
        id: u64,
        title: Option<String>,
        url: Option<String>,
        score: Option<u32>,
        by: Option<String>,
        descendants: Option<u32>,
    ) -> (r: HnStory)
        ensures
            r.id == id,
            r.title@ == match title { Some(t) => t@, None => "No title"@ },
            r.url == url,
            r.score == match score { Some(s) => s, None => 0u32 },
            r.by@ == match by { Some(b) => b@, None => "unknown"@ },
            r.descendants == match descendants { Some(d) => d, None => 0u32 },
    {
        let title = match title {
            Some(t) => t,
            None => String::from_str("No title"),
        };
        let by = match by {
            Some(b) => b,
            None => String::from_str("unknown"),
        };
        let score = match score {
            Some(s) => s,
            None => 0,
        };
        let descendants = match descendants {
            Some(d) => d,
            None => 0,
        };
        HnStory { id, title, url, score, by, descendants }
    }

    /// The snapshot made of the stories that were fetched; failed ones are dropped.
    pub fn collect(results: Vec<Option<HnStory>>) -> (r: FeedData)
        ensures
            r matches FeedData::HackerNews(v) && v@ == successes(results@),
    {
        FeedData::HackerNews(keep_successes(results))
    }
}

/// The relative change in basis points, truncated toward zero; zero when the
/// previous close is zero.
pub open spec fn change_basis_points(price: int, prev: int) -> int {
    if prev == 0 {
        0
    } else if price >= prev {
        (price - prev) * 10000 / prev
    } else {
        -(((prev - price) * 10000) / prev)
    }
}

/// Fetches one quote per symbol.
#[derive(Debug, Clone)]
pub struct StocksFetcher {
    pub symbols: Vec<String>,
}

impl StocksFetcher {
    pub fn new(symbols: Vec<String>) -> (r: Self)
        ensures
            r.symbols == symbols,
    {
        StocksFetcher { symbols }
    }

    /// Address of the daily chart of one symbol.
    pub fn symbol_url(symbol: &str) -> (r: String)
        ensures
            r@ == "https://query1.finance.yahoo.com/v8/finance/chart/"@ + symbol@
                + "?interval=1d&range=1d"@,
    {
        let mut r = String::from_str("https://query1.finance.yahoo.com/v8/finance/chart/");
        r.append(symbol);
        r.append("?interval=1d&range=1d");
        r
    }

    /// Shapes one chart's metadata into a quote. An absent price counts as
    /// zero, an absent previous close as the price; an absent name is "Unknown".
    pub fn quote_from_meta(
        symbol: String,
        short_name: Option<String>,
        price_cents: Option<u32>,
        prev_close_cents: Option<u32>,
    ) -> (r: StockQuote)
        ensures
            ({
                let price: int = match price_cents { Some(p) => p as int, None => 0 };
                let prev: int = match prev_close_cents { Some(p) => p as int, None => price };
                &&& r.symbol == symbol
                &&& r.name@ == match short_name { Some(n) => n@, None => "Unknown"@ }
                &&& r.price_cents as int == price
                &&& r.change_cents as int == price - prev
                &&& r.change_basis_points as int == change_basis_points(price, prev)
            }),
    {
        let price: u32 = match price_cents {
            Some(p) => p,
            None => 0,
        };
        let prev: u32 = match prev_close_cents {
            Some(p) => p,
            None => price,
        };
        let change: i64 = price as i64 - prev as i64;
        let bp: i64 = if prev == 0 {
            0
        } else if price >= prev {
            let up: u64 = (price - prev) as u64 * 10000;
            assert(up / (prev as u64) <= up) by (nonlinear_arith)
                requires prev > 0, up >= 0;
            (up / (prev as u64)) as i64
        } else {
            let down: u64 = (prev - price) as u64 * 10000;
            assert(down / (prev as u64) <= down) by (nonlinear_arith)
                requires prev > 0, down >= 0;
            -((down / (prev as u64)) as i64)
        };
        let name = match short_name {
            Some(n) => n,
            None => String::from_str("Unknown"),
        };
        StockQuote { symbol, price_cents: price, change_cents: change, change_basis_points: bp, name }
    }

    /// The snapshot made of the quotes that were fetched; failed ones are dropped.
    pub fn collect(results: Vec<Option<StockQuote>>) -> (r: FeedData)
        ensures
            r matches FeedData::Stocks(v) && v@ == successes(results@),
    {
        FeedData::Stocks(keep_successes(results))
    }
}

} // verus!
