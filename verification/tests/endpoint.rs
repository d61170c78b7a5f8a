use pixrs::endpoint::{
    illust_info_url, illust_pages_url, user_all_works_url, user_info_url, user_top_works_url,
};

#[test]
fn user_info_url_holds_the_id() {
    assert_eq!(user_info_url(11), "https://www.pixiv.net/ajax/user/11?full=1");
}

#[test]
fn user_top_works_url_holds_the_id() {
    assert_eq!(user_top_works_url(4321), "https://www.pixiv.net/ajax/user/4321/profile/top");
}

#[test]
fn user_all_works_url_holds_the_id() {
    assert_eq!(user_all_works_url(4321), "https://www.pixiv.net/ajax/user/4321/profile/all");
}

#[test]
fn illust_info_url_holds_the_id() {
    assert_eq!(illust_info_url(42), "https://www.pixiv.net/ajax/illust/42");
}

#[test]
fn illust_pages_url_holds_the_id() {
    assert_eq!(illust_pages_url(42), "https://www.pixiv.net/ajus/illust/42/pages");
}

#[test]
fn urls_write_negative_and_extreme_ids_as_numerals() {
    assert_eq!(user_info_url(0), "https://www.pixiv.net/ajax/user/0?full=1");
    assert_eq!(user_info_url(-5), "https://www.pixiv.net/ajax/user/-5?full=1");
    assert_eq!(illust_info_url(i32::MAX), "https://www.pixiv.net/ajax/illust/2147483647");
    assert_eq!(illust_info_url(i32::MIN), "https://www.pixiv.net/ajax/illust/-2147483648");
}
