//! ServerChan: push notifications to WeChat, delivered once per key.

use crate::decimal::push_decimal;
use crate::json::{i64_at, parse_error, str_at};
use crate::monitors::pairs_view;
use crate::notifiers::{
    attempts_view, deliveries_view, failure_line, failure_reason, failures, settled, Attempt,
    AttemptView, Delivery, DeliveryOutcome, DeliveryView, NotificationError, NotificationErrorView,
    Notifier, SendRequest, SendRequestView,
};
use crate::text::{
    byte_len, byte_length, chars_of, contains, has_item, join_with, lemma_find_from, matches_at,
    texts,
};
use vstd::prelude::*;
use vstd::string::*;

verus! {

/// The `application/x-www-form-urlencoded` form of a list of pairs, as
/// `serde_urlencoded` writes it; the message of its error where it refuses.
pub uninterp spec fn form_encoded(pairs: Seq<(Seq<char>, Seq<char>)>) -> Result<
    Seq<char>,
    Seq<char>,
>;

/// What the first group of the regular expression `pattern` captures at its
/// first match in `text`: nothing where it does not match, the message of the
/// error where `regex` refuses the pattern.
pub uninterp spec fn regex_first_group(pattern: Seq<char>, text: Seq<char>) -> Result<
    Option<Seq<char>>,
    Seq<char>,
>;

/// `serde_urlencoded::to_string` on a list of pairs of strings.
#[verifier::external_body]
fn encode_form(pairs: &Vec<(String, String)>) -> (r: Result<String, String>)
    ensures
        match r {
            Ok(s) => form_encoded(pairs_view(pairs@)) == Ok::<Seq<char>, Seq<char>>(s@),
            Err(e) => form_encoded(pairs_view(pairs@)) == Err::<Seq<char>, Seq<char>>(e@),
        },
{
    serde_urlencoded::to_string(pairs).map_err(|e| e.to_string())
}

/// `regex::Regex::new` on `pattern`, then `Regex::captures` on `text` and the
/// text of group 1 of the match.
#[verifier::external_body]
fn first_group(pattern: &str, text: &str) -> (r: Result<Option<String>, String>)
    ensures
        match r {
            Ok(Some(g)) => regex_first_group(pattern@, text@) == Ok::<
                Option<Seq<char>>,
                Seq<char>,
            >(Some(g@)),
            Ok(None) => regex_first_group(pattern@, text@) == Ok::<Option<Seq<char>>, Seq<char>>(
                None,
            ),
            Err(e) => regex_first_group(pattern@, text@) == Err::<Option<Seq<char>>, Seq<char>>(
                e@,
            ),
        },
{
    match regex::Regex::new(pattern) {
        Ok(re) => Ok(re.captures(text).and_then(|c| c.get(1)).map(|m| m.as_str().to_string())),
        Err(e) => Err(e.to_string()),
    }
}

/// ServerChan notification service, used to send notifications to WeChat
pub struct ServerChanNotifier {
    /// ServerChan's SCKEYs: no key twice, none empty
    keys: Vec<String>,
}

/// The keys after `key` was added: an empty key and a key that is there
/// already change nothing.
pub open spec fn with_key(keys: Seq<Seq<char>>, key: Seq<char>) -> Seq<Seq<char>> {
    if key.len() == 0 || keys.contains(key) {
        keys
    } else {
        keys.push(key)
    }
}

/// The keys after each of `more` was added, in order.
pub open spec fn with_keys(keys: Seq<Seq<char>>, more: Seq<Seq<char>>) -> Seq<Seq<char>>
    decreases more.len(),
{
    if more.len() == 0 {
        keys
    } else {
        with_key(with_keys(keys, more.drop_last()), more.last())
    }
}

/// The keys after `key` was removed.
pub open spec fn without_key(keys: Seq<Seq<char>>, key: Seq<char>) -> Seq<Seq<char>>
    decreases keys.len(),
{
    if keys.len() == 0 {
        Seq::empty()
    } else {
        let rest = without_key(keys.drop_last(), key);
        if keys.last() == key {
            rest
        } else {
            rest.push(keys.last())
        }
    }
}

/// A set of keys holds no key twice and no empty key.
pub open spec fn key_set(keys: Seq<Seq<char>>) -> bool {
    &&& keys.no_duplicates()
    &&& forall|i: int| 0 <= i < keys.len() ==> (#[trigger] keys[i]).len() > 0
}

/// The pattern that finds the number inside a key of the `sctp` kind.
pub open spec fn sctp_pattern() -> Seq<char> {
    "sctp(\\d+)t"@
}

/// Where a notification for `key` is sent.
pub open spec fn target_url(key: Seq<char>) -> Result<Seq<char>, Seq<char>> {
    if matches_at(key, "sctp"@, 0) {
        match regex_first_group(sctp_pattern(), key) {
            Err(e) => Err("Failed to parse regex: "@ + e),
            Ok(None) => Err("ServerChan key format is incorrect"@),
            Ok(Some(num)) => Ok("https://"@ + num + ".push.ft07.com/send/"@ + key + ".send"@),
        }
    } else {
        Ok("https://sctapi.ftqq.com/"@ + key + ".send"@)
    }
}

/// The request that delivers a notification to `key`, or why there is none.
pub open spec fn request_for(title: Seq<char>, content: Seq<char>, key: Seq<char>) -> Result<
    SendRequestView,
    Seq<char>,
> {
    match form_encoded(seq![("text"@, title), ("desp"@, content)]) {
        Err(e) => Err("Failed to encode request parameters: "@ + e),
        Ok(body) => match target_url(key) {
            Err(e) => Err(e),
            Ok(url) => Ok(
                SendRequestView {
                    url,
                    content_type: "application/x-www-form-urlencoded"@,
                    content_length: byte_len(body) as u64,
                    body,
                },
            ),
        },
    }
}

/// The deliveries of a notification: one per key, in the order of the keys.
pub open spec fn planned(keys: Seq<Seq<char>>, title: Seq<char>, content: Seq<char>) -> Seq<
    DeliveryView,
> {
    Seq::new(
        keys.len(),
        |i: int| DeliveryView { key: keys[i], request: request_for(title, content, keys[i]) },
    )
}

/// What `send` returns: an error at once where there is no key, else the
/// deliveries.
pub open spec fn sent(keys: Seq<Seq<char>>, title: Seq<char>, content: Seq<char>) -> Result<
    Seq<DeliveryView>,
    NotificationErrorView,
> {
    if keys.len() == 0 {
        Err(NotificationErrorView::NoKeys)
    } else {
        Ok(planned(keys, title, content))
    }
}

fn starts_with(s: &str, prefix: &str) -> (r: bool)
    ensures
        r == matches_at(s@, prefix@, 0),
{
    let hay = chars_of(s);
    let p = chars_of(prefix);
    if p.len() > hay.len() {
        return false;
    }
    let n = p.len();
    let mut i: usize = 0;
    while i < n
        invariant
            i <= n == p@.len(),
            n <= hay@.len(),
            hay@ == s@,
            p@ == prefix@,
            forall|j: int| 0 <= j < i ==> hay@[j] == p@[j],
        decreases n - i,
    {
        if hay[i] != p[i] {
            assert(hay@.subrange(0, n as int)[i as int] != p@[i as int]);
            return false;
        }
        i += 1;
    }
    assert(hay@.subrange(0, n as int) =~= p@);
    true
}

fn failure_of(outcome: &DeliveryOutcome) -> (r: Option<String>)
    ensures
        crate::text::opt_text(r) == failure_reason(outcome@),
{
    match outcome {
        DeliveryOutcome::NotSent(e) => Some(e.clone()),
        DeliveryOutcome::Transport(e) => {
            let mut s = String::from_str("Failed to send notification request: ");
            s.append(e.as_str());
            Some(s)
        },
        DeliveryOutcome::Status(code) => {
            let mut s = String::from_str("Failed to send notification request, status code: ");
            push_decimal(&mut s, *code as u64);
            Some(s)
        },
        DeliveryOutcome::Response(text) => {
            match parse_error(text.as_str()) {
                Some(e) => {
                    let mut s = String::from_str("Failed to parse response: ");
                    s.append(e.as_str());
                    Some(s)
                },
                None => {
                    let code = match i64_at(text.as_str(), "/code") {
                        Some(c) => c,
                        None => -1,
                    };
                    if code != 0 {
                        match str_at(text.as_str(), "/message") {
                            Some(m) => Some(m),
                            None => Some(String::from_str("Unknown error")),
                        }
                    } else {
                        None
                    }
                },
            }
        },
    }
}

impl View for ServerChanNotifier {
    type V = Seq<Seq<char>>;

    closed spec fn view(&self) -> Seq<Seq<char>> {
        texts(self.keys@)
    }
}

impl ServerChanNotifier {
    #[verifier::type_invariant]
    spec fn well_formed(self) -> bool {
        key_set(texts(self.keys@))
    }

    /// Create a new ServerChan notification service with a single key; with
    /// no key where `key` is empty.
    pub fn new(key: &str) -> (r: Self)
        ensures
            r@ == with_key(Seq::empty(), key@),
            key_set(r@),
    {
        let mut keys: Vec<String> = Vec::new();
        if !key.is_empty() {
            keys.push(String::from_str(key));
            assert(texts(keys@) =~= seq![key@]);
        } else {
            assert(texts(keys@) =~= Seq::<Seq<char>>::empty());
        }
        assert(with_key(Seq::empty(), key@) =~= texts(keys@));
        ServerChanNotifier { keys }
    }

    /// Create a new ServerChan notification service with multiple keys: empty
    /// keys are left out, and a key that occurs twice is kept once.
    pub fn new_with_keys(keys: &[String]) -> (r: Self)
        ensures
            r@ == with_keys(Seq::empty(), texts(keys@)),
            key_set(r@),
    {
        let mut notifier = ServerChanNotifier { keys: Vec::new() };
        let n = keys.len();
        let mut i: usize = 0;
        assert(notifier@ =~= Seq::<Seq<char>>::empty());
        while i < n
            invariant
                i <= n == keys@.len(),
                notifier@ == with_keys(Seq::empty(), texts(keys@).take(i as int)),
            decreases n - i,
        {
            assert(texts(keys@).take(i + 1).drop_last() =~= texts(keys@).take(i as int));
            notifier.add_key(keys[i].as_str());
            i += 1;
        }
        assert(texts(keys@).take(n as int) =~= texts(keys@));
        proof {
            use_type_invariant(&notifier);
        }
        notifier
    }

    /// Add a new key to the notifier. An empty key and a key that is there
    /// already change nothing.
    pub fn add_key(&mut self, key: &str)
        ensures
            final(self)@ == with_key(old(self)@, key@),
            key_set(final(self)@),
    {
        proof {
            use_type_invariant(&*self);
        }
        if !key.is_empty() {
            let owned = String::from_str(key);
            if !has_item(&self.keys, &owned) {
                let ghost before = texts(self.keys@);
                let mut keys = self.get_keys();
                keys.push(owned);
                assert(texts(keys@) =~= before.push(key@));
                self.keys = keys;
            }
        }
    }

    /// Remove a key from the notifier. A key that is not there changes nothing.
    pub fn remove_key(&mut self, key: &str)
        ensures
            final(self)@ == without_key(old(self)@, key@),
            key_set(final(self)@),
    {
        proof {
            use_type_invariant(&*self);
        }
        let wanted = String::from_str(key);
        let n = self.keys.len();
        let mut kept: Vec<String> = Vec::new();
        let mut i: usize = 0;
        let ghost all = texts(self.keys@);
        assert(texts(kept@) =~= Seq::<Seq<char>>::empty());
        while i < n
            invariant
                i <= n == self.keys@.len(),
                all == texts(self.keys@),
                key_set(all),
                wanted@ == key@,
                texts(kept@) == without_key(all.take(i as int), key@),
                forall|j: int| 0 <= j < kept@.len() ==> all.take(i as int).contains(
                    #[trigger] texts(kept@)[j],
                ),
                key_set(texts(kept@)),
            decreases n - i,
        {
            let ghost next = all.take(i + 1);
            assert(next.drop_last() =~= all.take(i as int));
            assert(next.last() == self.keys@[i as int]@);
            if self.keys[i] != wanted {
                let ghost before = texts(kept@);
                kept.push(self.keys[i].clone());
                assert(texts(kept@) =~= before.push(all[i as int]));
                assert forall|j: int| 0 <= j < kept@.len() implies next.contains(
                    #[trigger] texts(kept@)[j],
                ) by {
                    if j < before.len() {
                        let k = choose|k: int|
                            0 <= k < all.take(i as int).len() && all.take(i as int)[k]
                                == before[j];
                        assert(next[k] == before[j]);
                    } else {
                        assert(next[i as int] == all[i as int]);
                    }
                }
                assert forall|a: int, b: int|
                    0 <= a < b < texts(kept@).len() implies texts(kept@)[a] != texts(
                    kept@,
                )[b] by {
                    if b == before.len() {
                        let k = choose|k: int|
                            0 <= k < all.take(i as int).len() && all.take(i as int)[k]
                                == before[a];
                        assert(all[k] != all[i as int]);
                    }
                }
            } else {
                assert forall|j: int| 0 <= j < kept@.len() implies next.contains(
                    #[trigger] texts(kept@)[j],
                ) by {
                    let k = choose|k: int|
                        0 <= k < all.take(i as int).len() && all.take(i as int)[k] == texts(
                            kept@,
                        )[j];
                    assert(next[k] == texts(kept@)[j]);
                }
            }
            i += 1;
        }
        assert(all.take(n as int) =~= all);
        self.keys = kept;
    }

    /// Get all configured keys
    pub fn get_keys(&self) -> (r: Vec<String>)
        ensures
            texts(r@) == self@,
            key_set(self@),
    {
        proof {
            use_type_invariant(self);
        }
        let n = self.keys.len();
        let mut out: Vec<String> = Vec::new();
        let mut i: usize = 0;
        while i < n
            invariant
                i <= n == self.keys@.len(),
                texts(out@) == texts(self.keys@).take(i as int),
            decreases n - i,
        {
            let ghost before = texts(out@);
            out.push(self.keys[i].clone());
            assert(texts(out@) =~= before.push(self.keys@[i as int]@));
            assert(texts(out@) =~= texts(self.keys@).take(i + 1));
            i += 1;
        }
        assert(texts(self.keys@).take(n as int) =~= texts(self.keys@));
        out
    }

    /// Where a notification for `key` is sent.
    pub fn url_for(key: &str) -> (r: Result<String, String>)
        ensures
            match r {
                Ok(url) => target_url(key@) == Ok::<Seq<char>, Seq<char>>(url@),
                Err(e) => target_url(key@) == Err::<Seq<char>, Seq<char>>(e@),
            },
    {
        if starts_with(key, "sctp") {
            match first_group("sctp(\\d+)t", key) {
                Err(e) => {
                    let mut s = String::from_str("Failed to parse regex: ");
                    s.append(e.as_str());
                    Err(s)
                },
                Ok(None) => Err(String::from_str("ServerChan key format is incorrect")),
                Ok(Some(num)) => {
                    let mut url = String::from_str("https://");
                    url.append(num.as_str());
                    url.append(".push.ft07.com/send/");
                    url.append(key);
                    url.append(".send");
                    Ok(url)
                },
            }
        } else {
            let mut url = String::from_str("https://sctapi.ftqq.com/");
            url.append(key);
            url.append(".send");
            Ok(url)
        }
    }

    /// The request that delivers a notification to `key`, or why none can be made.
    pub fn sc_send(&self, text: &str, desp: &str, key: &str) -> (r: Result<SendRequest, String>)
        ensures
            match r {
                Ok(request) => request_for(text@, desp@, key@) == Ok::<SendRequestView, Seq<char>>(
                    request@,
                ),
                Err(e) => request_for(text@, desp@, key@) == Err::<SendRequestView, Seq<char>>(e@),
            },
    {
        let mut params: Vec<(String, String)> = Vec::new();
        params.push((String::from_str("text"), String::from_str(text)));
        params.push((String::from_str("desp"), String::from_str(desp)));
        assert(pairs_view(params@) =~= seq![("text"@, text@), ("desp"@, desp@)]);
        let post_data = match encode_form(&params) {
            Ok(d) => d,
            Err(e) => {
                let mut s = String::from_str("Failed to encode request parameters: ");
                s.append(e.as_str());
                return Err(s);
            },
        };
        let url = match Self::url_for(key) {
            Ok(u) => u,
            Err(e) => {
                return Err(e);
            },
        };
        let content_length = byte_length(post_data.as_str()) as u64;
        Ok(
            SendRequest {
                url,
                content_type: String::from_str("application/x-www-form-urlencoded"),
                content_length,
                body: post_data,
            },
        )
    }
}

impl Notifier for ServerChanNotifier {
    open spec fn targets(&self) -> Seq<Seq<char>> {
        self@
    }

    /// The deliveries that a notification takes: one per key, whatever becomes
    /// of the others. Without a key there is nothing to deliver, which is an
    /// error.
    fn send(&self, title: &str, content: &str) -> (r: Result<Vec<Delivery>, NotificationError>)
        ensures
            match r {
                Ok(ds) => sent(self@, title@, content@) == Ok::<
                    Seq<DeliveryView>,
                    NotificationErrorView,
                >(deliveries_view(ds@)),
                Err(e) => sent(self@, title@, content@) == Err::<
                    Seq<DeliveryView>,
                    NotificationErrorView,
                >(e@),
            },
    {
        let n = self.keys.len();
        if n == 0 {
            return Err(NotificationError::NoKeys);
        }
        let mut out: Vec<Delivery> = Vec::new();
        let mut i: usize = 0;
        while i < n
            invariant
                i <= n == self.keys@.len(),
                deliveries_view(out@) == planned(self@, title@, content@).take(i as int),
            decreases n - i,
        {
            let ghost before = deliveries_view(out@);
            let request = self.sc_send(title, content, self.keys[i].as_str());
            let d = Delivery { key: self.keys[i].clone(), request };
            assert(d@ == planned(self@, title@, content@)[i as int]);
            out.push(d);
            assert(deliveries_view(out@) =~= before.push(d@));
            assert(deliveries_view(out@) =~= planned(self@, title@, content@).take(i + 1));
            i += 1;
        }
        assert(planned(self@, title@, content@).take(n as int) =~= planned(
            self@,
            title@,
            content@,
        ));
        assert forall|i: int| 0 <= i < out@.len() implies (#[trigger] out@[i])@.key == self@[i] by {
            assert(deliveries_view(out@)[i] == planned(self@, title@, content@)[i]);
        }
        Ok(out)
    }

    /// What a round of deliveries amounts to: every attempt is looked at, and
    /// one failure among them makes the round fail.
    fn settle(&self, attempts: &Vec<Attempt>) -> (r: Result<(), NotificationError>)
    {
        let n = attempts.len();
        let mut errors: Vec<String> = Vec::new();
        let mut i: usize = 0;
        let ghost all = attempts_view(attempts@);
        assert(texts(errors@) =~= Seq::<Seq<char>>::empty());
        while i < n
            invariant
                i <= n == attempts@.len(),
                all == attempts_view(attempts@),
                texts(errors@) == failures(all.take(i as int)),
            decreases n - i,
        {
            assert(all.take(i + 1).drop_last() =~= all.take(i as int));
            assert(all.take(i + 1).last() == attempts@[i as int]@);
            match failure_of(&attempts[i].outcome) {
                Some(reason) => {
                    let mut line = String::from_str("Failed to send notification to key ");
                    line.append(attempts[i].key.as_str());
                    line.append(": ");
                    line.append(reason.as_str());
                    let ghost before = texts(errors@);
                    errors.push(line);
                    assert(texts(errors@) =~= before.push(
                        failure_line(attempts@[i as int]@.key, reason@),
                    ));
                },
                None => {},
            }
            i += 1;
        }
        assert(all.take(n as int) =~= all);
        if errors.len() > 0 {
            let mut message = String::from_str("Some notifications failed: ");
            message.append(join_with(&errors, "; ").as_str());
            Err(NotificationError::Failed(message))
        } else {
            Ok(())
        }
    }
}

proof fn lemma_no_failures(attempts: Seq<AttemptView>)
    requires
        forall|j: int| 0 <= j < attempts.len() ==> failure_reason(attempts[j].outcome) is None,
    ensures
        failures(attempts).len() == 0,
    decreases attempts.len(),
{
    if attempts.len() > 0 {
        lemma_no_failures(attempts.drop_last());
    }
}

proof fn lemma_one_failure(attempts: Seq<AttemptView>, i: int, reason: Seq<char>)
    requires
        0 <= i < attempts.len(),
        failure_reason(attempts[i].outcome) == Some(reason),
        forall|j: int|
            0 <= j < attempts.len() && j != i ==> failure_reason(attempts[j].outcome) is None,
    ensures
        failures(attempts) == seq![failure_line(attempts[i].key, reason)],
    decreases attempts.len(),
{
    if i == attempts.len() - 1 {
        lemma_no_failures(attempts.drop_last());
        assert(failures(attempts) =~= seq![failure_line(attempts[i].key, reason)]);
    } else {
        lemma_one_failure(attempts.drop_last(), i, reason);
    }
}

/// A notification is delivered to every key: the deliveries are as many as
/// the keys, each for its key, and no key is contacted twice.
pub proof fn law_every_key_is_contacted_once(
    keys: Seq<Seq<char>>,
    title: Seq<char>,
    content: Seq<char>,
)
    requires
        key_set(keys),
    ensures
        planned(keys, title, content).len() == keys.len(),
        forall|i: int| 0 <= i < keys.len() ==> (#[trigger] planned(keys, title, content)[i]).key
            == keys[i],
        forall|i: int, j: int|
            0 <= i < j < keys.len() ==> (#[trigger] planned(keys, title, content)[i]).key != (
            #[trigger] planned(keys, title, content)[j]).key,
{
}

/// Where exactly one delivery of a round fails, the round fails with an
/// error that reports that delivery and names its key; the other deliveries
/// do not change the verdict.
pub proof fn law_one_failure_fails_the_round(
    attempts: Seq<AttemptView>,
    i: int,
    reason: Seq<char>,
)
    requires
        0 <= i < attempts.len(),
        failure_reason(attempts[i].outcome) == Some(reason),
        forall|j: int|
            0 <= j < attempts.len() && j != i ==> failure_reason(attempts[j].outcome) is None,
    ensures
        settled(attempts) == Err::<(), NotificationErrorView>(
            NotificationErrorView::Failed(
                "Some notifications failed: "@ + failure_line(attempts[i].key, reason),
            ),
        ),
        contains(
            "Some notifications failed: "@ + failure_line(attempts[i].key, reason),
            attempts[i].key,
        ),
{
    lemma_one_failure(attempts, i, reason);
    let key = attempts[i].key;
    let message = "Some notifications failed: "@ + failure_line(key, reason);
    let at = ("Some notifications failed: "@.len() + "Failed to send notification to key "@.len())
        as int;
    assert(message.subrange(at, at + key.len()) =~= key);
    assert(matches_at(message, key, at));
    lemma_find_from(message, key, 0);
}

/// A round in which every delivery succeeds is a success.
pub proof fn law_all_delivered_is_success(attempts: Seq<AttemptView>)
    requires
        forall|j: int| 0 <= j < attempts.len() ==> failure_reason(attempts[j].outcome) is None,
    ensures
        settled(attempts) is Ok,
{
    lemma_no_failures(attempts);
}

/// Adding the keys of a set to nothing gives the set.
pub proof fn lemma_with_keys_of_a_set(keys: Seq<Seq<char>>)
    requires
        key_set(keys),
    ensures
        with_keys(Seq::empty(), keys) == keys,
    decreases keys.len(),
{
    if keys.len() > 0 {
        let shorter = keys.drop_last();
        assert forall|i: int, j: int| 0 <= i < j < shorter.len() implies shorter[i]
            != shorter[j] by {
            assert(shorter[i] == keys[i] && shorter[j] == keys[j]);
        }
        assert forall|i: int| 0 <= i < shorter.len() implies (#[trigger] shorter[i]).len()
            > 0 by {
            assert(shorter[i] == keys[i]);
        }
        lemma_with_keys_of_a_set(shorter);
        assert(keys.last() == keys[keys.len() - 1]);
        assert(!shorter.contains(keys.last())) by {
            if shorter.contains(keys.last()) {
                let k = choose|k: int| 0 <= k < shorter.len() && shorter[k] == keys.last();
                assert(keys[k] == keys[keys.len() - 1]);
            }
        }
        assert(keys =~= shorter.push(keys.last()));
    }
}

/// Adding a key twice is adding it once.
pub proof fn law_add_key_twice(keys: Seq<Seq<char>>, key: Seq<char>)
    ensures
        with_key(with_key(keys, key), key) == with_key(keys, key),
{
    if key.len() > 0 && !keys.contains(key) {
        assert(keys.push(key)[keys.len() as int] == key);
    }
}

proof fn lemma_without_key_has_no_key(keys: Seq<Seq<char>>, key: Seq<char>)
    ensures
        !without_key(keys, key).contains(key),
    decreases keys.len(),
{
    if keys.len() > 0 {
        lemma_without_key_has_no_key(keys.drop_last(), key);
    }
}

proof fn lemma_without_absent_key(keys: Seq<Seq<char>>, key: Seq<char>)
    requires
        !keys.contains(key),
    ensures
        without_key(keys, key) == keys,
    decreases keys.len(),
{
    if keys.len() > 0 {
        assert(keys.last() == keys[keys.len() - 1]);
        assert forall|j: int| 0 <= j < keys.drop_last().len() implies keys.drop_last()[j]
            != key by {
            assert(keys.drop_last()[j] == keys[j]);
        }
        lemma_without_absent_key(keys.drop_last(), key);
        assert(keys =~= keys.drop_last().push(keys.last()));
    } else {
        assert(keys =~= Seq::<Seq<char>>::empty());
    }
}

/// Removing a key twice is removing it once, and removing a key that is not
/// there changes nothing.
pub proof fn law_remove_key_twice(keys: Seq<Seq<char>>, key: Seq<char>)
    ensures
        without_key(without_key(keys, key), key) == without_key(keys, key),
        !keys.contains(key) ==> without_key(keys, key) == keys,
{
    lemma_without_key_has_no_key(keys, key);
    lemma_without_absent_key(without_key(keys, key), key);
    if !keys.contains(key) {
        lemma_without_absent_key(keys, key);
    }
}

} // verus!
