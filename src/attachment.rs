//! Linking a message's attachments and stickers in its content

use vstd::prelude::*;
use vstd::string::{StrSliceExecFns, StringExecFns};

use crate::error::Error;
use crate::limits::{content_length_max, content_length_max_spec};
use crate::MessageSource;

verus! {

/// The URLs as sequences of characters
pub open spec fn url_views(urls: Seq<String>) -> Seq<Seq<char>> {
    urls.map_values(|u: String| u@)
}

/// Characters that the URLs take, each on its own line
pub open spec fn links_len(urls: Seq<Seq<char>>) -> int
    decreases urls.len(),
{
    if urls.len() == 0 {
        0
    } else {
        links_len(urls.drop_last()) + urls.last().len() + 1
    }
}

/// The URLs, each after a line break
pub open spec fn links(urls: Seq<Seq<char>>) -> Seq<char>
    decreases urls.len(),
{
    if urls.len() == 0 {
        Seq::empty()
    } else {
        links(urls.drop_last()).push('\n') + urls.last()
    }
}

/// Whether content `content` with the links to `urls` below an empty line
/// stays within the platform's ceiling
pub open spec fn links_fit(content: Seq<char>, urls: Seq<Seq<char>>) -> bool {
    content.len() + links_len(urls) + 1 <= content_length_max_spec()
}

/// Extension of the image of a sticker, by the platform's number of its
/// format: 1 is PNG, 2 is APNG (shown as PNG), 4 is GIF
pub open spec fn sticker_extension_spec(format: u8) -> Option<Seq<char>> {
    if format == 1 || format == 2 {
        Some("png"@)
    } else if format == 4 {
        Some("gif"@)
    } else {
        None
    }
}

/// Extension of the image of a sticker in format `format`
///
/// # Errors
///
/// Returns [`Error::StickerLinkInvalid`] if the format has no image that can
/// be linked to, as Lottie stickers don't
pub fn sticker_extension(format: u8) -> (r: Result<&'static str, Error>)
    ensures
        sticker_extension_spec(format) matches Some(e) ==> (r matches Ok(s) && s@ == e),
        sticker_extension_spec(format) is None ==> r == Err::<&'static str, Error>(
            Error::StickerLinkInvalid,
        ),
{
    if format == 1 || format == 2 {
        Ok("png")
    } else if format == 4 {
        Ok("gif")
    } else {
        Err(Error::StickerLinkInvalid)
    }
}

impl MessageSource {
    /// Append links to the attachments or stickers into the message content,
    /// below an empty line, one per line
    ///
    /// # Errors
    ///
    /// Returns [`Error::ContentInvalid`] if the message content would become
    /// too long, leaving it unchanged
    pub fn append_urls(&mut self, urls: &Vec<String>) -> (r: Result<(), Error>)
        ensures
            !links_fit(old(self).content@, url_views(urls@)) ==> r == Err::<(), Error>(
                Error::ContentInvalid,
            ) && final(self).content == old(self).content,
            links_fit(old(self).content@, url_views(urls@)) ==> r == Ok::<(), Error>(())
                && final(self).content@ == old(self).content@.push('\n') + links(url_views(urls@)),
            final(self).source_id == old(self).source_id,
            final(self).channel_id == old(self).channel_id,
            final(self).later_messages == old(self).later_messages,
    {
        let ghost uv = url_views(urls@);
        let max = content_length_max();
        let mut total: usize = self.content.as_str().unicode_len();
        let mut i: usize = 0;
        while i < urls.len()
            invariant
                i <= urls.len(),
                uv == url_views(urls@),
                max == content_length_max_spec(),
                total <= max ==> total == self.content@.len() + links_len(uv.take(i as int)),
                total > max ==> self.content@.len() + links_len(uv.take(i as int)) > max,
            decreases urls.len() - i,
        {
            proof {
                assert(uv.take(i + 1).drop_last() =~= uv.take(i as int));
                assert(links_len(uv.take(i as int)) >= 0) by {
                    lemma_links_len_nonneg(uv.take(i as int));
                }
            }
            let n = urls[i].as_str().unicode_len();
            if total <= max {
                total = total.saturating_add(n).saturating_add(1);
            }
            i = i + 1;
        }
        assert(uv.take(urls.len() as int) =~= uv);
        if total >= max {
            return Err(Error::ContentInvalid);
        }
        proof {
            reveal_strlit("\n");
        }
        let ghost start = self.content@;
        self.content.append("\n");
        let mut j: usize = 0;
        while j < urls.len()
            invariant
                j <= urls.len(),
                uv == url_views(urls@),
                self.content@ == start.push('\n') + links(uv.take(j as int)),
                self.source_id == old(self).source_id,
                self.channel_id == old(self).channel_id,
                self.later_messages == old(self).later_messages,
            decreases urls.len() - j,
        {
            proof {
                reveal_strlit("\n");
                assert(uv.take(j + 1).drop_last() =~= uv.take(j as int));
                assert(uv.take(j + 1).last() == urls@[j as int]@);
            }
            self.content.append("\n");
            self.content.append(urls[j].as_str());
            j = j + 1;
            assert(self.content@ =~= start.push('\n') + links(uv.take(j as int)));
        }
        assert(uv.take(urls.len() as int) =~= uv);
        Ok(())
    }
}

proof fn lemma_links_len_nonneg(urls: Seq<Seq<char>>)
    ensures
        links_len(urls) >= 0,
    decreases urls.len(),
{
    if urls.len() > 0 {
        lemma_links_len_nonneg(urls.drop_last());
    }
}

} // verus!
