use clios_archive::layout::record_space;
use clios_archive::layout::text_field_budget;
use clios_archive::layout::CATEGORY_BYTE_BUDGET;
use clios_archive::layout::DESCRIPTION_BYTE_BUDGET;
use clios_archive::layout::SOURCE_URL_BYTE_BUDGET;
use clios_archive::layout::TOPIC_BYTE_BUDGET;

#[test]
fn record_space_matches_the_declared_allocation() {
    // Discriminator, author key, two timestamps, then the four
    // length-prefixed text-field budgets.
    assert_eq!(record_space(), 8 + 32 + 8 + 8 + 54 + 284 + 24 + 104);
    assert_eq!(record_space(), 522);
}

#[test]
fn each_text_field_budget_adds_the_length_prefix() {
    assert_eq!(text_field_budget(TOPIC_BYTE_BUDGET), 54);
    assert_eq!(text_field_budget(DESCRIPTION_BYTE_BUDGET), 284);
    assert_eq!(text_field_budget(CATEGORY_BYTE_BUDGET), 24);
    assert_eq!(text_field_budget(SOURCE_URL_BYTE_BUDGET), 104);
}
