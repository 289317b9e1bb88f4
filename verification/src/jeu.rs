use crate::boisson::CommandeBoisson;
use rand::rngs::ThreadRng;
use rand::seq::IndexedRandom;
use rand::Rng;
use vstd::prelude::*;

verus! {

/// Le générateur de nombres aléatoires du fil courant, fourni par rand.
#[verifier::external_type_specification]
#[verifier::external_body]
pub struct ExThreadRng(ThreadRng);

/// Pourquoi une commande est refusée.
#[derive(Debug)]
pub enum RefuseRaison {
    ManqueArgent,
    CommandeImpossible,
}

/// La cadence à laquelle les clients arrivent.
pub enum GameMode {
    Facil,
    Difficil,
}

/// Les prénoms que peuvent porter les clients.
pub const NOMS: [&'static str; 10] = [
    "Aimé",
    "Anatole",
    "Clovis",
    "Godefroy",
    "Octave",
    "Léandre",
    "Théophile",
    "Armand",
    "Firmin",
    "Barthélemy",
];

/// Les commandes que peuvent passer les clients.
pub const COMMANDES: [CommandeBoisson; 3] = [
    CommandeBoisson::Expresso,
    CommandeBoisson::CafeAllonge,
    CommandeBoisson::CafeAuLait,
];

/// Appelle `Rng::random_range` de rand sur l'intervalle `0..borne` : un
/// entier tiré au hasard, au moins 0 et plus petit que `borne`. Lequel n'est
/// pas dit. La fonction de rand panique sur un intervalle vide, d'où `borne > 0`.
#[verifier::external_body]
fn au_hasard_sous(rng: &mut ThreadRng, borne: u32) -> (r: u32)
    requires
        borne > 0,
    ensures
        r < borne,
{
    rng.random_range(0..borne)
}

/// Appelle `IndexedRandom::choose` de rand sur une tranche : `None` si elle
/// est vide, sinon une référence à l'un de ses éléments, tiré au hasard.
/// Lequel n'est pas dit.
#[verifier::external_body]
fn choisir_au_hasard<'a, T>(elements: &'a [T], rng: &mut ThreadRng) -> (r: Option<&'a T>)
    ensures
        r is None <==> elements@.len() == 0,
        r matches Some(x) ==> elements@.contains(*x),
{
    elements.choose(rng)
}

/// La lettre majuscule de rang `rang` dans l'alphabet (0 pour A, 25 pour Z).
fn lettre_majuscule(rang: u32) -> (lettre: &'static str)
    requires
        rang < 26,
    ensures
        lettre@.len() == 1,
        lettre@[0] as u32 == 65 + rang,
{
    match rang {
        0 => {
            proof {
                reveal_strlit("A");
            }
            "A"
        },
        1 => {
            proof {
                reveal_strlit("B");
            }
            "B"
        },
        2 => {
            proof {
                reveal_strlit("C");
            }
            "C"
        },
        3 => {
            proof {
                reveal_strlit("D");
            }
            "D"
        },
        4 => {
            proof {
                reveal_strlit("E");
            }
            "E"
        },
        5 => {
            proof {
                reveal_strlit("F");
            }
            "F"
        },
        6 => {
            proof {
                reveal_strlit("G");
            }
            "G"
        },
        7 => {
            proof {
                reveal_strlit("H");
            }
            "H"
        },
        8 => {
            proof {
                reveal_strlit("I");
            }
            "I"
        },
        9 => {
            proof {
                reveal_strlit("J");
            }
            "J"
        },
        10 => {
            proof {
                reveal_strlit("K");
            }
            "K"
        },
        11 => {
            proof {
                reveal_strlit("L");
            }
            "L"
        },
        12 => {
            proof {
                reveal_strlit("M");
            }
            "M"
        },
        13 => {
            proof {
                reveal_strlit("N");
            }
            "N"
        },
        14 => {
            proof {
                reveal_strlit("O");
            }
            "O"
        },
        15 => {
            proof {
                reveal_strlit("P");
            }
            "P"
        },
        16 => {
            proof {
                reveal_strlit("Q");
            }
            "Q"
        },
        17 => {
            proof {
                reveal_strlit("R");
            }
            "R"
        },
        18 => {
            proof {
                reveal_strlit("S");
            }
            "S"
        },
        19 => {
            proof {
                reveal_strlit("T");
            }
            "T"
        },
        20 => {
            proof {
                reveal_strlit("U");
            }
            "U"
        },
        21 => {
            proof {
                reveal_strlit("V");
            }
            "V"
        },
        22 => {
            proof {
                reveal_strlit("W");
            }
            "W"
        },
        23 => {
            proof {
                reveal_strlit("X");
            }
            "X"
        },
        24 => {
            proof {
                reveal_strlit("Y");
            }
            "Y"
        },
        _ => {
            proof {
                reveal_strlit("Z");
            }
            "Z"
        },
    }
}

/// Une lettre majuscule de A à Z.
pub open spec fn est_initiale(c: char) -> bool {
    65 <= (c as u32) <= 90
}

/// `s` est une suite, peut-être vide, de « X. » précédés d'une espace, où X
/// est une majuscule : ce qu'on ajoute à un prénom pour le distinguer.
pub open spec fn suite_d_initiales(s: Seq<char>) -> bool
    decreases s.len(),
{
    if s.len() == 0 {
        true
    } else {
        &&& s.len() >= 3
        &&& s[0] == ' '
        &&& est_initiale(s[1])
        &&& s[2] == '.'
        &&& suite_d_initiales(s.skip(3))
    }
}

/// Les noms déjà pris, tels que vus par la logique.
pub open spec fn noms_vus(pris: Seq<String>) -> Seq<Seq<char>> {
    pris.map_values(|s: String| s@)
}

/// La longueur du plus long des noms.
pub open spec fn longueur_max(noms: Seq<Seq<char>>) -> nat
    decreases noms.len(),
{
    if noms.len() == 0 {
        0
    } else {
        let avant = longueur_max(noms.drop_last());
        if noms.last().len() > avant {
            noms.last().len()
        } else {
            avant
        }
    }
}

proof fn lemme_longueur_max(noms: Seq<Seq<char>>)
    ensures
        forall|i: int| 0 <= i < noms.len() ==> #[trigger] noms[i].len() <= longueur_max(noms),
    decreases noms.len(),
{
    if noms.len() > 0 {
        lemme_longueur_max(noms.drop_last());
        assert forall|i: int| 0 <= i < noms.len() implies #[trigger] noms[i].len() <= longueur_max(
            noms,
        ) by {
            if i < noms.len() - 1 {
                assert(noms[i] == noms.drop_last()[i]);
            }
        }
    }
}

proof fn lemme_suite_prolongee(s: Seq<char>, c: char)
    requires
        suite_d_initiales(s),
        est_initiale(c),
    ensures
        suite_d_initiales(s + seq![' ', c, '.']),
    decreases s.len(),
{
    let t = s + seq![' ', c, '.'];
    if s.len() == 0 {
        assert(t =~= seq![' ', c, '.']);
        assert(t.skip(3) =~= Seq::<char>::empty());
        assert(suite_d_initiales(t.skip(3)));
    } else {
        assert(t[0] == s[0] && t[1] == s[1] && t[2] == s[2]);
        lemme_suite_prolongee(s.skip(3), c);
        assert(t.skip(3) =~= s.skip(3) + seq![' ', c, '.']);
        assert(suite_d_initiales(t.skip(3)));
    }
}

/// Vrai si `nom` est l'un des noms de `pris`.
fn est_pris(pris: &Vec<String>, nom: &String) -> (b: bool)
    ensures
        b == noms_vus(pris@).contains(nom@),
{
    let n = pris.len();
    for i in 0..n
        invariant
            n == pris@.len(),
            forall|j: int| 0 <= j < i ==> pris@[j]@ != nom@,
    {
        if pris[i] == *nom {
            assert(noms_vus(pris@)[i as int] == nom@);
            return true;
        }
    }
    assert(!noms_vus(pris@).contains(nom@)) by {
        if noms_vus(pris@).contains(nom@) {
            let j = choose|j: int| 0 <= j < n && noms_vus(pris@)[j] == nom@;
            assert(pris@[j]@ == nom@);
        }
    }
    false
}

/// Les `longueur + 3 k` premiers caractères de `s` : un nom de `longueur`
/// caractères après qu'on lui a ajouté `k` initiales.
pub open spec fn apres_initiales(s: Seq<char>, longueur: nat, k: int) -> Seq<char> {
    s.subrange(0, longueur + 3 * k)
}

/// Rend `nom` distinct de tous les noms de `pris` : tant qu'il est pris, on
/// lui ajoute une initiale tirée au hasard (« Octave » devient « Octave K. »,
/// puis au besoin « Octave K. B. »).
pub fn nom_unique(nom: String, pris: &Vec<String>, rng: &mut ThreadRng) -> (unique: String)
    ensures
        !noms_vus(pris@).contains(unique@),
        nom@.len() <= unique@.len(),
        unique@.subrange(0, nom@.len() as int) == nom@,
        suite_d_initiales(unique@.skip(nom@.len() as int)),
        !noms_vus(pris@).contains(nom@) ==> unique@ == nom@,
        unique@ != nom@ ==> noms_vus(pris@).contains(unique@.subrange(0, unique@.len() - 3)),
        forall|k: int|
            0 <= k < (unique@.len() - nom@.len()) / 3 ==> noms_vus(pris@).contains(
                #[trigger] apres_initiales(unique@, nom@.len(), k),
            ),
{
    let ghost base = nom@;
    let ghost max = longueur_max(noms_vus(pris@));
    proof {
        lemme_longueur_max(noms_vus(pris@));
        assert(nom@.skip(base.len() as int) =~= Seq::<char>::empty());
        assert(nom@.subrange(0, base.len() as int) =~= base);
    }
    let mut nom = nom;
    while est_pris(pris, &nom)
        invariant
            max == longueur_max(noms_vus(pris@)),
            forall|i: int|
                0 <= i < noms_vus(pris@).len() ==> #[trigger] noms_vus(pris@)[i].len() <= max,
            base.len() <= nom@.len(),
            nom@.subrange(0, base.len() as int) == base,
            suite_d_initiales(nom@.skip(base.len() as int)),
            !noms_vus(pris@).contains(base) ==> nom@ == base,
            nom@ != base ==> noms_vus(pris@).contains(nom@.subrange(0, nom@.len() - 3)),
            (nom@.len() - base.len()) % 3 == 0,
            forall|k: int|
                0 <= k < (nom@.len() - base.len()) / 3 ==> noms_vus(pris@).contains(
                    #[trigger] apres_initiales(nom@, base.len(), k),
                ),
        decreases max + 3 - nom@.len(),
    {
        proof {
            let j = choose|j: int| 0 <= j < noms_vus(pris@).len() && noms_vus(pris@)[j] == nom@;
            assert(noms_vus(pris@)[j].len() <= max);
        }
        let r = au_hasard_sous(rng, 26);
        let lettre = lettre_majuscule(r);
        let ghost initiale = lettre@[0];
        let ghost avant = nom@;
        proof {
            reveal_strlit(" ");
            reveal_strlit(".");
        }
        nom.append(" ");
        nom.append(lettre);
        nom.append(".");
        proof {
            assert(lettre@ =~= seq![initiale]);
            assert(nom@ =~= avant + seq![' ', initiale, '.']);
            assert(est_initiale(initiale));
            lemme_suite_prolongee(avant.skip(base.len() as int), initiale);
            assert(nom@.skip(base.len() as int) =~= avant.skip(base.len() as int) + seq![
                ' ',
                initiale,
                '.',
            ]);
            assert(nom@.subrange(0, base.len() as int) =~= avant.subrange(0, base.len() as int));
            assert(nom@.subrange(0, nom@.len() - 3) =~= avant);
            assert forall|k: int| 0 <= k < (nom@.len() - base.len()) / 3 implies noms_vus(
                pris@,
            ).contains(#[trigger] apres_initiales(nom@, base.len(), k)) by {
                if k < (avant.len() - base.len()) / 3 {
                    assert(apres_initiales(nom@, base.len(), k) =~= apres_initiales(
                        avant,
                        base.len(),
                        k,
                    ));
                } else {
                    assert(apres_initiales(nom@, base.len(), k) =~= avant);
                }
            }
        }
    }
    nom
}

/// Un prénom de client, tiré au hasard parmi [`NOMS`].
pub fn choisir_nom(rng: &mut ThreadRng) -> (nom: String)
    ensures
        exists|i: int| 0 <= i < NOMS.len() && nom@ == (#[trigger] NOMS@[i])@,
{
    let noms = NOMS.as_slice();
    let choisi = choisir_au_hasard(noms, rng);
    let nom: &str = *choisi.unwrap();
    proof {
        vstd::array::axiom_spec_array_as_slice(&NOMS);
        let i = choose|i: int| 0 <= i < noms@.len() && noms@[i] == nom;
        assert(NOMS@[i] == nom);
    }
    nom.to_string()
}

/// Une commande de client, tirée au hasard parmi [`COMMANDES`].
pub fn choisir_commande(rng: &mut ThreadRng) -> (commande: CommandeBoisson)
    ensures
        COMMANDES@.contains(commande),
{
    let commandes = COMMANDES.as_slice();
    let choisie = choisir_au_hasard(commandes, rng);
    *choisie.unwrap()
}

/// L'argent, en centimes, qu'un client apporte pour `commande` : le prix,
/// plus un supplément tiré au hasard parmi 0, 25, ..., 225 centimes.
pub fn argent_du_client(commande: CommandeBoisson, rng: &mut ThreadRng) -> (centimes: u32)
    ensures
        crate::boisson::prix_centimes(commande) <= centimes,
        centimes < crate::boisson::prix_centimes(commande) + 250,
        (centimes - crate::boisson::prix_centimes(commande)) % 25 == 0,
{
    let extra = au_hasard_sous(rng, 10);
    commande.prix() + extra * 25
}

} // verus!
