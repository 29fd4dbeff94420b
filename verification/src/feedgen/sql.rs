//! The SQL text of the feeds' queries, cut where values go in.
use vstd::prelude::*;

verus! {

/// Text of the media query, piece 0.
pub const MEDIA_QUERY_0: &'static str = "select uri,
       \"indexedAt\",
       cid,
       \"replyParent\",
       \"replyRoot\",
       prev,
       \"sequence\",
       \"text\",
       lang,
       author,
       \"externalUri\",
       \"externalTitle\",
       \"externalDescription\",
       \"externalThumb\",
       null as \"quoteCid\",
       null as \"quoteUri\",
       \"media\",
\"alt\"
from (select p1.uri,
             p1.cid,
             p1.\"replyParent\",
             p1.\"replyRoot\",
             p1.prev,
             p1.\"sequence\",
             p1.\"text\",
             p1.lang,
             p1.author,
             p1.\"externalUri\",
             p1.\"externalTitle\",
             p1.\"externalDescription\",
             p1.\"externalThumb\",
             p1.\"quoteCid\",
             p1.\"quoteUri\",
             p1.\"indexedAt\",
p1.\"media\",
p1.\"alt\"
      from post p1
      where p1.author in (";

/// Text of the media query, piece 1.
pub const MEDIA_QUERY_1: &'static str = ")
        and (p1.media is true)
      group by p1.uri, p1.cid, p1.author) as x
where true=true";

/// Text of the post seen query, piece 0.
pub const POST_QUERY_SEEN_0: &'static str = "select uri,
       \"indexedAt\",
       cid,
       \"replyParent\",
       \"replyRoot\",
       prev,
       \"sequence\",
       \"text\",
       lang,
       author,
       \"externalUri\",
       \"externalTitle\",
       \"externalDescription\",
       \"externalThumb\",
       null as \"quoteCid\",
       null as \"quoteUri\",
       \"media\",
\"alt\"
from (select p1.uri,
             p1.cid,
             p1.\"replyParent\",
             p1.\"replyRoot\",
             p1.prev,
             p1.\"sequence\",
             p1.\"text\",
             p1.lang,
             p1.author,
             p1.\"externalUri\",
             p1.\"externalTitle\",
             p1.\"externalDescription\",
             p1.\"externalThumb\",
             p1.\"quoteCid\",
             p1.\"quoteUri\",
             (select count(*) from public.like m where p1.uri = m.\"subjectUri\" and m.author in (";

/// Text of the post seen query, piece 1.
pub const POST_QUERY_SEEN_1: &'static str = ")) as likeCount,
             p1.\"indexedAt\",
p1.\"media\",
p1.\"alt\"
      from post p1
               left join post p2
                         on p1.\"replyParent\" = p2.uri
               left join \"like\" l1
                    on l1.\"subjectUri\" = p1.uri and l1.author in (";

/// Text of the post seen query, piece 2.
pub const POST_QUERY_SEEN_2: &'static str = ")
               LEFT OUTER JOIN seen_post s1 ON s1.did = '";

/// Text of the post seen query, piece 3.
pub const POST_QUERY_SEEN_3: &'static str = "' and s1.uri = p1.uri
      where p1.author in (";

/// Text of the post seen query, piece 4.
pub const POST_QUERY_SEEN_4: &'static str = ")
        and (";

/// Text of the post seen query, piece 5.
pub const POST_QUERY_SEEN_5: &'static str = " or p1.\"quoteUri\" is null)
        and (";

/// Text of the post seen query, piece 6.
pub const POST_QUERY_SEEN_6: &'static str = "=false or p1.\"media\" is false or p1.\"alt\" is not null)
        and (";

/// Text of the post seen query, piece 7.
pub const POST_QUERY_SEEN_7: &'static str = " or p1.\"replyParent\" is null)
        and s1.id is null
        and (";

/// Text of the post seen query, piece 8.
pub const POST_QUERY_SEEN_8: &'static str = " or p2.author is null or (p2.author in (";

/// Text of the post seen query, piece 9.
pub const POST_QUERY_SEEN_9: &'static str = ")))
      group by p1.uri, p1.cid, p1.author) as x
where (\"replyParent\" is null or likeCount >= ";

/// Text of the post seen query, piece 10.
pub const POST_QUERY_SEEN_10: &'static str = ")";

/// Text of the post plain query, piece 0.
pub const POST_QUERY_0: &'static str = "select uri,
       \"indexedAt\",
       cid,
       \"replyParent\",
       \"replyRoot\",
       prev,
       \"sequence\",
       \"text\",
       lang,
       author,
       \"externalUri\",
       \"externalTitle\",
       \"externalDescription\",
       \"externalThumb\",
       null as \"quoteCid\",
       null as \"quoteUri\",
        \"media\",
        alt
from (select p1.uri,
             p1.cid,
             p1.\"replyParent\",
             p1.\"replyRoot\",
             p1.prev,
             p1.\"sequence\",
             p1.\"text\",
             p1.lang,
             p1.author,
             p1.\"externalUri\",
             p1.\"externalTitle\",
             p1.\"externalDescription\",
             p1.\"externalThumb\",
             p1.\"quoteCid\",
             p1.\"quoteUri\",
             (select count(*) from public.like m where p1.uri = m.\"subjectUri\" and m.author in (";

/// Text of the post plain query, piece 1.
pub const POST_QUERY_1: &'static str = ")) as likeCount,
             p1.\"indexedAt\",
            p1.\"media\",
p1.\"alt\"
      from post p1
               left join post p2
                         on p1.\"replyParent\" = p2.uri
      where p1.author in (";

/// Text of the post plain query, piece 2.
pub const POST_QUERY_2: &'static str = ")
        and (";

/// Text of the post plain query, piece 3.
pub const POST_QUERY_3: &'static str = " or p1.\"quoteUri\" is null)
        and (";

/// Text of the post plain query, piece 4.
pub const POST_QUERY_4: &'static str = "=false or p1.\"media\" is false or p1.\"alt\" is not null)
        and (";

/// Text of the post plain query, piece 5.
pub const POST_QUERY_5: &'static str = " or p1.\"replyParent\" is null)
        and (";

/// Text of the post plain query, piece 6.
pub const POST_QUERY_6: &'static str = " or p2.author is null or (p2.author in (";

/// Text of the post plain query, piece 7.
pub const POST_QUERY_7: &'static str = ")))
      group by p1.uri, p1.cid, p1.author) as x
where (\"replyParent\" is null or likeCount >= ";

/// Text of the post plain query, piece 8.
pub const POST_QUERY_8: &'static str = ")";

/// Text of the repost seen query, piece 0.
pub const REPOST_QUERY_SEEN_0: &'static str = "select uri,
       \"indexedAt\",
       cid,
       null   as \"replyParent\",
       null   as \"replyRoot\",
       prev,
       \"sequence\",
       null   as \"text\",
       null   as lang,
       author as author,
       null   as \"externalUri\",
       null   as \"externalTitle\",
       null   as \"externalDescription\",
       null   as \"externalThumb\",
       \"subjectCid\"   as \"quoteCid\",
       \"subjectUri\"   as \"quoteUri\",
       false   as \"media\",
       null as alt
from (select r1.uri as uri,
             r1.cid as cid,
             r1.\"subjectUri\" as \"subjectUri\",
             r1.\"subjectCid\" as \"subjectCid\",
             r1.author,
             r1.\"indexedAt\",
             r1.prev,
             r1.\"sequence\"
      from repost r1
          LEFT OUTER JOIN seen_post s1 ON s1.did = '";

/// Text of the repost seen query, piece 1.
pub const REPOST_QUERY_SEEN_1: &'static str = "' and s1.uri = r1.uri
      where r1.author in (";

/// Text of the repost seen query, piece 2.
pub const REPOST_QUERY_SEEN_2: &'static str = ") and s1.id is null) as x";

/// Text of the repost plain query, piece 0.
pub const REPOST_QUERY_0: &'static str = "select uri,
       \"indexedAt\",
       cid,
       null   as \"replyParent\",
       null   as \"replyRoot\",
       prev,
       \"sequence\",
       null   as \"text\",
       null   as lang,
       author as author,
       null   as \"externalUri\",
       null   as \"externalTitle\",
       null   as \"externalDescription\",
       null   as \"externalThumb\",
       \"subjectCid\"   as \"quoteCid\",
       \"subjectUri\"   as \"quoteUri\",
       false   as \"media\",
       null as alt
from (select r1.uri as uri,
             r1.cid as cid,
             r1.\"subjectUri\" as \"subjectUri\",
             r1.\"subjectCid\" as \"subjectCid\",
             r1.author,
             r1.\"indexedAt\",
             r1.prev,
             r1.\"sequence\"
      from repost r1
      where r1.author in (";

/// Text of the repost plain query, piece 1.
pub const REPOST_QUERY_1: &'static str = ")
      ) as x";

/// Text of the mutuals query, piece 0.
pub const MUTUALS_QUERY_0: &'static str = "SELECT uri,
       \"indexedAt\",
       cid,
       \"replyParent\",
       \"replyRoot\",
       prev,
       \"sequence\",
       \"text\",
       lang,
       author,
       \"externalUri\",
       \"externalTitle\",
       \"externalDescription\",
       \"externalThumb\",
       null as \"quoteCid\",
       null as \"quoteUri\",
       \"media\",
       alt
         FROM post
         WHERE author IN (
             SELECT f1.subject
             FROM follow f1
             JOIN follow f2 ON f1.subject = f2.author AND f1.author = f2.subject
             WHERE f1.author = '";

/// Text of the mutuals query, piece 1.
pub const MUTUALS_QUERY_1: &'static str = "'
         )
         ORDER BY \"indexedAt\" DESC, cid DESC
         LIMIT ";

/// Text of the mutuals query, piece 2.
pub const MUTUALS_QUERY_2: &'static str = "";

} // verus!
