//! The playlist text served alongside an ingested stream.

use vstd::prelude::*;

verus! {

/// The fixed event playlist announced while a stream is being ingested.
pub fn mock_playlist() -> (r: String)
    ensures
        r@ == ("
        #EXTM3U
        #EXT-X-VERSION:3
        #EXT-X-PLAYLIST-TYPE:EVENT
        #EXT-X-TARGETDURATION:10
        #EXT-X-VERSION:4
        #EXT-X-MEDIA-SEQUENCE:0

        #EXTINF:2.00,
        ")@,
{
    "
        #EXTM3U
        #EXT-X-VERSION:3
        #EXT-X-PLAYLIST-TYPE:EVENT
        #EXT-X-TARGETDURATION:10
        #EXT-X-VERSION:4
        #EXT-X-MEDIA-SEQUENCE:0

        #EXTINF:2.00,
        ".to_owned()
}

} // verus!
