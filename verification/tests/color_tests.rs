use yulaven::character::SelectedCharacter;
use yulaven::color::Rgba;

#[test]
fn hovered_card_brightens() {
    let bg = SelectedCharacter::Mage.card_color().brightened(8);
    assert_eq!(bg, Rgba { r: 18, g: 23, b: 43, a: 100 });
    let border = SelectedCharacter::Mage.accent_color().brightened(20);
    assert_eq!(border, Rgba { r: 50, g: 80, b: 100, a: 100 });
    let faded = Rgba { r: 95, g: 0, b: 100, a: 40 }.brightened(20);
    assert_eq!(faded, Rgba { r: 100, g: 20, b: 100, a: 100 });
}

#[test]
fn recharging_bar_dims() {
    let c = SelectedCharacter::Warlock.accent_color().dimmed(40);
    assert_eq!(c, Rgba { r: 28, g: 8, b: 40, a: 100 });
    let c = SelectedCharacter::Archer.accent_color().dimmed(60);
    assert_eq!(c, Rgba { r: 12, g: 54, b: 24, a: 100 });
}
