use rumba::ai::constants::join_with_tags;
use rumba::ai::embeddings::RelatedDoc;

fn doc(content: &str) -> RelatedDoc {
    RelatedDoc {
        url: "".into(),
        title: "".into(),
        title_parent: None,
        content: content.into(),
    }
}

#[test]
fn test_join() {
    let related_docs = vec![doc("content1"), doc("content2"), doc("content3")];
    let expected = r#"<article>
content1
</article>
<article>
content2
</article>
<article>
content3
</article>"#;
    assert_eq!(join_with_tags(related_docs), expected)
}

#[test]
fn join_with_tags_of_no_documents_is_empty() {
    assert_eq!(join_with_tags(vec![]), "");
}
