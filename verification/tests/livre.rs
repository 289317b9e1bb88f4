use workshop_rust::livre::Livre;

#[test]
fn nouveau_livre_garde_titre_et_auteur() {
    let livre = Livre::new("Crime et Châtiment", "Fiodor Dostoïevski");
    assert_eq!(livre.get_titre(), "Crime et Châtiment");
    assert_eq!(livre.get_auteur(), "Fiodor Dostoïevski");
    assert!(livre.get_pages().is_empty());
}

#[test]
fn ajouter_page_ajoute_a_la_fin() {
    let mut livre = Livre::new("Titre", "Auteur");
    livre.ajouter_page("Lorem ipsum dolor sit amet, consectetur adipiscing elit");
    livre.ajouter_page("Deuxième page");
    assert_eq!(
        livre.get_pages(),
        &vec![
            "Lorem ipsum dolor sit amet, consectetur adipiscing elit".to_string(),
            "Deuxième page".to_string(),
        ]
    );
}

#[test]
fn ajouter_page_ne_change_ni_titre_ni_auteur() {
    let mut livre = Livre::new("Titre", "Auteur");
    livre.ajouter_page("");
    assert_eq!(livre.get_titre(), "Titre");
    assert_eq!(livre.get_auteur(), "Auteur");
    assert_eq!(livre.get_pages(), &vec![String::new()]);
}

#[test]
fn compter_les_lettres_des_pages() {
    let mut livre = Livre::new("Crime et Châtiment", "Fiodor Dostoïevski");
    livre.ajouter_page("Lorem ipsum dolor sit amet, consectetur adipiscing elit");
    let lettres: usize = livre.get_pages().iter().map(|p| p.len()).sum();
    assert_eq!(lettres, 55);
}
