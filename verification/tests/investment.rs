use tou_http::investment::{
    attachment_file_name, attachment_key, attachment_label_ru, missing_attachments,
    InvestmentAttachment,
};

#[test]
fn every_attachment_has_a_russian_label() {
    for attachment in [
        InvestmentAttachment::Estimate,
        InvestmentAttachment::Schedule,
        InvestmentAttachment::Appraisal,
        InvestmentAttachment::Guarantee,
    ] {
        assert!(!attachment_label_ru(attachment).is_empty());
    }
    assert_eq!(
        attachment_label_ru(InvestmentAttachment::Estimate),
        "Смета инвестиционного проекта"
    );
}

#[test]
fn attachment_names_default_and_are_cut_to_255_characters() {
    assert_eq!(attachment_file_name(None), "attachment");
    assert_eq!(attachment_file_name(Some("смета.pdf")), "смета.pdf");
    let long = "я".repeat(300);
    assert_eq!(attachment_file_name(Some(&long)).chars().count(), 255);
}

#[test]
fn attachment_keys_and_missing_documents() {
    assert_eq!(
        attachment_key(1, "estimate"),
        "investment-contracts/00000000-0000-0000-0000-000000000001/estimate"
    );
    let list: Vec<String> = ["estimate", "schedule", "appraisal", "guarantee"]
        .into_iter()
        .map(str::to_owned)
        .collect();
    let attached = vec!["schedule".to_owned(), "other".to_owned()];
    assert_eq!(
        missing_attachments(&list, &attached),
        vec!["estimate".to_owned(), "appraisal".to_owned(), "guarantee".to_owned()]
    );
    assert!(missing_attachments(&list, &list).is_empty());
}
