use workshop_rust::boisson::{
    commentaire, extraction_terminee, CommandeBoisson, MachineEspresso, Recette,
    TEMPS_EXTRACTION_ESPRESSO_NS,
};
use workshop_rust::jeu::{argent_du_client, choisir_commande, choisir_nom, nom_unique, COMMANDES, NOMS};

#[test]
fn prix_des_commandes() {
    assert_eq!(CommandeBoisson::Expresso.prix(), 300);
    assert_eq!(CommandeBoisson::CafeAllonge.prix(), 350);
    assert_eq!(CommandeBoisson::CafeAuLait.prix(), 500);
}

#[test]
fn recettes_ideales() {
    assert_eq!(
        CommandeBoisson::Expresso.recette_ideale(),
        Recette { espresso_ml: 27, lait_ml: 0, eau_ml: 0, temp_c: 67 }
    );
    assert_eq!(
        CommandeBoisson::CafeAllonge.recette_ideale(),
        Recette { espresso_ml: 27, lait_ml: 0, eau_ml: 90, temp_c: 67 }
    );
    assert_eq!(
        CommandeBoisson::CafeAuLait.recette_ideale(),
        Recette { espresso_ml: 27, lait_ml: 150, eau_ml: 0, temp_c: 65 }
    );
}

#[test]
fn commentaires_du_client() {
    assert_eq!(commentaire(true, true, true, false), "Mais, c'est un verre vide???");
    assert_eq!(commentaire(false, false, false, false), "*Boit sa boisson*");
    assert_eq!(commentaire(false, true, false, false), "AIE! C'est brulant!");
    assert_eq!(commentaire(false, true, true, false), "Mmh, c'est délicieux !");
    assert_eq!(commentaire(false, false, false, true), "Mais... c'est pas ce que j'ai commandé !");
    assert_eq!(commentaire(false, true, false, true), "Mais... c'est pas ce que j'ai commandé !");
}

#[test]
fn extraction_terminee_apres_une_seconde() {
    assert!(!extraction_terminee(0));
    assert!(!extraction_terminee(TEMPS_EXTRACTION_ESPRESSO_NS));
    assert!(extraction_terminee(1_000_000_001));
}

#[test]
fn une_boisson_par_position() {
    let mut machine: MachineEspresso<u32, 4> = MachineEspresso::new();
    assert_eq!(machine.commencer_espresso(2, 10), Ok(()));
    assert_eq!(machine.commencer_espresso(2, 20), Err(()));
    assert_eq!(machine.commencer_espresso(3, 30), Ok(()));
    assert_eq!(machine.retirer_si_termine(2, true), Ok(10));
    assert_eq!(machine.retirer_si_termine(3, true), Ok(30));
}

#[test]
fn depot_puis_retrait_rend_la_boisson() {
    let mut machine: MachineEspresso<String, 2> = MachineEspresso::new();
    assert_eq!(machine.commencer_espresso(0, "tasse".to_string()), Ok(()));
    assert_eq!(machine.est_termine(1), None);
    assert!(machine.est_termine(0).is_some());
    assert_eq!(machine.retirer_si_termine(0, true), Ok("tasse".to_string()));
    assert_eq!(machine.est_termine(0), None);
    assert_eq!(machine.commencer_espresso(0, "autre".to_string()), Ok(()));
}

#[test]
fn retrait_avant_la_fin_ne_change_rien() {
    let mut machine: MachineEspresso<u32, 1> = MachineEspresso::new();
    assert_eq!(machine.retirer_si_termine(0, true), Err(()));
    assert_eq!(machine.commencer_espresso(0, 5), Ok(()));
    assert_eq!(machine.retirer_si_termine(0, false), Err(()));
    assert_eq!(machine.est_termine(0), Some(false));
    assert_eq!(machine.retirer_boisson(0), Err(()));
    assert_eq!(machine.retirer_si_termine(0, true), Ok(5));
}

#[test]
fn retirer_position_vide_est_une_erreur() {
    let mut machine: MachineEspresso<u32, 3> = MachineEspresso::new();
    assert_eq!(machine.retirer_boisson(1), Err(()));
    assert_eq!(machine.est_termine(1), None);
}

#[test]
fn retirer_apres_une_seconde() {
    let mut machine: MachineEspresso<u32, 1> = MachineEspresso::new();
    assert_eq!(machine.commencer_espresso(0, 9), Ok(()));
    let debut = std::time::Instant::now();
    while debut.elapsed() < std::time::Duration::from_millis(1100) {}
    assert_eq!(machine.est_termine(0), Some(true));
    assert_eq!(machine.retirer_boisson(0), Ok(9));
    assert_eq!(machine.est_termine(0), None);
}

#[test]
fn nom_libre_garde_tel_quel() {
    let mut rng = rand::rng();
    let pris = vec!["Clovis".to_string(), "Armand".to_string()];
    assert_eq!(nom_unique("Octave".to_string(), &pris, &mut rng), "Octave");
}

fn est_suite_d_initiales(s: &str) -> bool {
    let c: Vec<char> = s.chars().collect();
    if c.len() % 3 != 0 {
        return false;
    }
    c.chunks(3).all(|t| t[0] == ' ' && t[1].is_ascii_uppercase() && t[2] == '.')
}

#[test]
fn nom_pris_recoit_une_initiale() {
    let mut rng = rand::rng();
    let pris = vec!["Octave".to_string()];
    let nom = nom_unique("Octave".to_string(), &pris, &mut rng);
    assert!(!pris.contains(&nom));
    assert!(nom.starts_with("Octave"));
    assert_eq!(nom.chars().count(), 9);
    assert_eq!(&nom[..nom.len() - 3], "Octave");
    assert!(est_suite_d_initiales(&nom["Octave".len()..]));
}

#[test]
fn nom_unique_parmi_beaucoup() {
    let mut rng = rand::rng();
    let mut pris = vec!["Firmin".to_string()];
    for c in 'A'..='Z' {
        pris.push(format!("Firmin {}.", c));
    }
    for _ in 0..20 {
        let nom = nom_unique("Firmin".to_string(), &pris, &mut rng);
        assert!(!pris.contains(&nom));
        assert!(nom.starts_with("Firmin"));
        assert!(est_suite_d_initiales(&nom["Firmin".len()..]));
        assert!(nom.chars().count() >= "Firmin A. B.".chars().count());
        assert!(pris.contains(&nom[..nom.len() - 3].to_string()));
        let mut fin = "Firmin".len();
        while fin < nom.len() {
            assert!(pris.contains(&nom[..fin].to_string()));
            fin += 3;
        }
        pris.push(nom);
    }
}

#[test]
fn nom_unique_s_arrete_au_premier_nom_libre() {
    let mut rng = rand::rng();
    let pris = vec!["Octave".to_string(), "Octave A. B.".to_string()];
    for _ in 0..20 {
        let nom = nom_unique("Octave".to_string(), &pris, &mut rng);
        assert_eq!(nom.chars().count(), "Octave A.".chars().count());
    }
}

#[test]
fn nom_choisi_parmi_les_noms() {
    let mut rng = rand::rng();
    for _ in 0..50 {
        let nom = choisir_nom(&mut rng);
        assert!(NOMS.contains(&nom.as_str()));
    }
}

#[test]
fn commande_choisie_parmi_les_commandes() {
    let mut rng = rand::rng();
    for _ in 0..50 {
        assert!(COMMANDES.contains(&choisir_commande(&mut rng)));
    }
}

#[test]
fn argent_couvre_le_prix() {
    let mut rng = rand::rng();
    for commande in COMMANDES {
        for _ in 0..50 {
            let argent = argent_du_client(commande, &mut rng);
            let prix = commande.prix();
            assert!(prix <= argent && argent < prix + 250);
            assert_eq!((argent - prix) % 25, 0);
        }
    }
}
