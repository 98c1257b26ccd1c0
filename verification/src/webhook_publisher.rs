//! The webhook side of a publish: which addresses an event is posted to.
use crate::publisher::PublishMessage;
use crate::string_index::{grouped, holds, members_of, StringIndex};
use crate::string_set::{lemma_listed, listed_before, lists, views_of, StringSet};
use vstd::prelude::*;

verus! {

/// Seconds between two rebuilds of the webhook index.
pub const WEBHOOK_UPDATE_INTERVAL_SECS: u64 = 60;

/// Seconds after which a post that got no answer is given up.
pub const POST_TIMEOUT_SECS: u64 = 5;

/// Whether one of the first `upto` topics of an event is bound to `url`.
pub open spec fn bound_before(
    index: Map<Seq<char>, Set<Seq<char>>>,
    topics: Seq<Seq<char>>,
    upto: int,
    url: Seq<char>,
) -> bool {
    exists|i: int| 0 <= i < upto && i < topics.len() && holds(index, #[trigger] topics[i], url)
}

/// The addresses that an event with these topics is posted to.
pub open spec fn targets(index: Map<Seq<char>, Set<Seq<char>>>, topics: Seq<Seq<char>>) -> Set<Seq<char>> {
    Set::new(|url: Seq<char>| bound_before(index, topics, topics.len() as int, url))
}

/// One HTTP request to a webhook: a POST of `body` to `url`.
pub struct Post {
    pub url: String,
    pub content_type: &'static str,
    pub user_agent: &'static str,
    pub body: String,
}

/// The content type of every post.
pub open spec fn content_type() -> Seq<char> {
    "application/json"@
}

/// The user agent of every post.
pub open spec fn user_agent() -> Seq<char> {
    "Actix-web"@
}

/// One post for each address, in the order of the addresses, each with
/// the same body.
pub fn deliveries(urls: Vec<String>, body: &String) -> (posts: Vec<Post>)
    ensures
        posts.len() == urls.len(),
        forall|i: int|
            0 <= i < urls.len() ==> {
                &&& (#[trigger] posts[i]).url == urls[i]
                &&& posts[i].body@ == body@
                &&& posts[i].content_type@ == content_type()
                &&& posts[i].user_agent@ == user_agent()
            },
{
    let ghost all = urls@;
    let mut posts: Vec<Post> = Vec::new();
    for url in it: urls
        invariant
            it.seq() == all,
            posts.len() == it.index(),
            forall|i: int|
                0 <= i < it.index() ==> {
                    &&& (#[trigger] posts[i]).url == all[i]
                    &&& posts[i].body@ == body@
                    &&& posts[i].content_type@ == content_type()
                    &&& posts[i].user_agent@ == user_agent()
                },
    {
        assert(0 <= it.index() < all.len());
        assert(url == all[it.index() as int]);
        posts.push(
            Post { url, content_type: "application/json", user_agent: "Actix-web", body: body.clone() },
        );
    }
    posts
}

/// The index of topic to webhook addresses. Its view is that map.
pub struct WebhookPublisher {
    topics: StringIndex,
}

impl View for WebhookPublisher {
    type V = Map<Seq<char>, Set<Seq<char>>>;

    closed spec fn view(&self) -> Map<Seq<char>, Set<Seq<char>>> {
        self.topics@
    }
}

impl WebhookPublisher {
    /// A publisher that knows no webhook.
    pub fn initialize() -> (publisher: Self)
        ensures
            publisher@ == Map::<Seq<char>, Set<Seq<char>>>::empty(),
    {
        WebhookPublisher { topics: StringIndex::new() }
    }

    /// Rebuilds the index from the store's (topic, address) rows. What the
    /// rows spell out replaces what was there, so a binding that the store
    /// no longer has is gone. `None` stands for a load that failed: the
    /// index stays as it is.
    pub fn refresh_webhooks(&mut self, loaded: Option<Vec<(String, String)>>)
        ensures
            final(self)@ == match loaded {
                Some(rows) => grouped(rows@, rows.len() as int),
                None => old(self)@,
            },
    {
        match loaded {
            Some(rows) => {
                self.topics = StringIndex::from_pairs(&rows);
            },
            None => {},
        }
    }

    /// The addresses that an event is posted to: every address bound to
    /// one of the event's topics, each once however many of the topics it
    /// is bound to.
    pub fn handle(&self, msg: &PublishMessage) -> (urls: Vec<String>)
        ensures
            lists(urls@, targets(self@, views_of(msg.message.topics@))),
    {
        let ghost index = self@;
        let ghost names = views_of(msg.message.topics@);
        let mut found = StringSet::new();
        let mut i: usize = 0;
        while i < msg.message.topics.len()
            invariant
                i <= msg.message.topics.len(),
                index == self@,
                names == views_of(msg.message.topics@),
                forall|u: Seq<char>| found@.contains(u) <==> bound_before(index, names, i as int, u),
            decreases msg.message.topics.len() - i,
        {
            let topic = &msg.message.topics[i];
            let ghost here = names[i as int];
            assert(here == topic@);
            assert forall|u: Seq<char>| bound_before(index, names, i + 1, u) <==> (bound_before(
                index,
                names,
                i as int,
                u,
            ) || members_of(index, here).contains(u)) by {
                if members_of(index, here).contains(u) {
                    assert(holds(index, names[i as int], u));
                }
            }
            match self.topics.group(topic) {
                Some(bound) => {
                    let list = bound.members();
                    let mut j: usize = 0;
                    while j < list.len()
                        invariant
                            j <= list.len(),
                            forall|u: Seq<char>|
                                found@.contains(u) <==> (bound_before(index, names, i as int, u)
                                    || listed_before(list@, j as int, u)),
                        decreases list.len() - j,
                    {
                        let url = &list[j];
                        let _ = found.insert(url.clone());
                        proof {
                            assert forall|u: Seq<char>| listed_before(list@, j + 1, u) <==> (listed_before(
                                list@,
                                j as int,
                                u,
                            ) || u == url@) by {
                                if u == url@ {
                                    assert(list[j as int]@ == u);
                                }
                            }
                        }
                        j += 1;
                    }
                    proof {
                        assert forall|u: Seq<char>| members_of(index, here).contains(u) <==> listed_before(
                            list@,
                            list.len() as int,
                            u,
                        ) by {
                            lemma_listed(list@, bound@, u);
                        }
                        assert(forall|u: Seq<char>|
                            found@.contains(u) <==> (bound_before(index, names, i as int, u)
                                || listed_before(list@, list.len() as int, u)));
                        assert(forall|u: Seq<char>|
                            bound_before(index, names, i + 1, u) <==> (bound_before(index, names, i as int, u)
                                || members_of(index, here).contains(u)));
                    }
                },
                None => {},
            }
            i += 1;
        }
        let urls = found.into_vec();
        proof {
            assert(found@ =~= targets(index, names));
        }
        urls
    }
}

} // verus!
