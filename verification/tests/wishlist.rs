use arnak::wishlist::WishlistPriority;

#[test]
fn sort_wishlist_priority() {
    assert!(WishlistPriority::DontBuyThis < WishlistPriority::MustHave);
}
