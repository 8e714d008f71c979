use atrium::bsky::{
    AspectRatioData, BlobRef, ImageData, KnownRecord, ListRule, MainData, MentionRule, Record,
    RecordAllowItem,
};


#[test]
fn aspect_ratio_sides_are_not_zero() {
    let r = AspectRatioData::new(9, 16).unwrap();
    assert_eq!(r.height(), 9);
    assert_eq!(r.width(), 16);
    assert!(AspectRatioData::new(0, 16).is_none());
    assert!(AspectRatioData::new(9, 0).is_none());
}

#[test]
fn threadgate_is_a_known_record() {
    let gate = Record {
        allow: Some(vec![
            RecordAllowItem::MentionRule(Box::new(MentionRule {})),
            RecordAllowItem::ListRule(Box::new(ListRule { list: "at://did:plc:x/app.bsky.graph.list/1".to_string() })),
        ]),
        created_at: "2024-01-01T00:00:00Z".to_string(),
        post: "at://did:plc:x/app.bsky.feed.post/1".to_string(),
    };
    match KnownRecord::from(gate) {
        KnownRecord::AppBskyFeedThreadgate(r) => {
            assert_eq!(r.post, "at://did:plc:x/app.bsky.feed.post/1");
            assert_eq!(r.allow.as_ref().map(|a| a.len()), Some(2));
        }
    }
}

#[test]
fn images_embed() {
    let m = MainData {
        images: vec![ImageData {
            alt: "a cat".to_string(),
            aspect_ratio: AspectRatioData::new(3, 4),
            image: BlobRef { cid: "bafkrei".to_string(), mime_type: "image/png".to_string(), size: 10 },
        }],
    };
    assert_eq!(m.images[0].aspect_ratio.as_ref().map(|a| a.width()), Some(4));

}
