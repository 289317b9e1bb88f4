use std::time::Instant;
use vstd::prelude::*;

verus! {

/// Le moment où une extraction a commencé : une valeur de l'horloge monotone,
/// que la logique ne fait que transporter.
#[verifier::external_type_specification]
#[verifier::external_body]
pub struct ExInstant(Instant);

/// Les boissons qu'un client peut commander.
#[derive(Debug, Clone, Copy, PartialEq, Eq, Structural)]
pub enum CommandeBoisson {
    /// un expresso simple
    Expresso,
    /// un expresso avec de l'eau chaude
    CafeAllonge,
    /// un expresso avec du lait
    CafeAuLait,
}

/// Le prix d'une commande, en centimes.
pub open spec fn prix_centimes(commande: CommandeBoisson) -> u32 {
    match commande {
        CommandeBoisson::Expresso => 300,
        CommandeBoisson::CafeAllonge => 350,
        CommandeBoisson::CafeAuLait => 500,
    }
}

/// Volume d'un espresso, en millilitres.
pub const ESPRESSO_ML: u32 = 27;

/// Température d'une boisson chaude servie, en degrés Celsius.
pub const TEMP_BOISSON_CHAUDE: u32 = 67;

/// Ce qu'une boisson contient, en millilitres, et sa température en degrés
/// Celsius.
#[derive(Debug, Clone, Copy, PartialEq, Eq, Structural)]
pub struct Recette {
    pub espresso_ml: u32,
    pub lait_ml: u32,
    pub eau_ml: u32,
    pub temp_c: u32,
}

/// La boisson idéale pour chaque commande.
pub open spec fn recette_ideale_de(commande: CommandeBoisson) -> Recette {
    match commande {
        CommandeBoisson::Expresso => Recette {
            espresso_ml: 27,
            lait_ml: 0,
            eau_ml: 0,
            temp_c: 67,
        },
        CommandeBoisson::CafeAllonge => Recette {
            espresso_ml: 27,
            lait_ml: 0,
            eau_ml: 90,
            temp_c: 67,
        },
        CommandeBoisson::CafeAuLait => Recette {
            espresso_ml: 27,
            lait_ml: 150,
            eau_ml: 0,
            temp_c: 65,
        },
    }
}

/// Ce que dit un client qui goûte sa boisson : un verre vide l'emporte sur
/// tout ; sinon une boisson très proche de la commande est délicieuse, une
/// boisson très éloignée n'est pas ce qu'il a commandé, une boisson trop chaude
/// le brûle, et autrement il la boit.
pub open spec fn commentaire_de(
    vide: bool,
    brulant: bool,
    similarite_haute: bool,
    similarite_basse: bool,
) -> Seq<char> {
    if vide {
        "Mais, c'est un verre vide???"@
    } else if similarite_haute {
        "Mmh, c'est délicieux !"@
    } else if similarite_basse {
        "Mais... c'est pas ce que j'ai commandé !"@
    } else if brulant {
        "AIE! C'est brulant!"@
    } else {
        "*Boit sa boisson*"@
    }
}

/// Le commentaire d'un client sur sa boisson, selon qu'elle est vide, plus
/// chaude que 70 °C, d'une similarité avec l'idéale au-dessus de 0,9 ou
/// au-dessous de 0,1.
pub fn commentaire(
    vide: bool,
    brulant: bool,
    similarite_haute: bool,
    similarite_basse: bool,
) -> (texte: &'static str)
    ensures
        texte@ == commentaire_de(vide, brulant, similarite_haute, similarite_basse),
        vide ==> texte@ == "Mais, c'est un verre vide???"@,
        !vide && similarite_haute ==> texte@ == "Mmh, c'est délicieux !"@,
        !vide && !similarite_haute && similarite_basse ==> texte@
            == "Mais... c'est pas ce que j'ai commandé !"@,
        !vide && !similarite_haute && !similarite_basse && brulant ==> texte@
            == "AIE! C'est brulant!"@,
        !vide && !similarite_haute && !similarite_basse && !brulant ==> texte@
            == "*Boit sa boisson*"@,
{
    if vide {
        return "Mais, c'est un verre vide???";
    }
    let mut texte = "*Boit sa boisson*";
    if brulant {
        texte = "AIE! C'est brulant!";
    }
    if similarite_haute {
        texte = "Mmh, c'est délicieux !";
    } else if similarite_basse {
        texte = "Mais... c'est pas ce que j'ai commandé !";
    }
    texte
}

/// Le commentaire d'un verre vide ne dépend de rien d'autre : c'est toujours
/// « Mais, c'est un verre vide??? ». Une boisson non vide très proche de la
/// commande est toujours délicieuse, quelle que soit sa température ; la
/// température ne compte que pour une boisson ni très proche ni très éloignée.
pub proof fn loi_commentaire(
    brulant: bool,
    autre_brulant: bool,
    similarite_haute: bool,
    autre_haute: bool,
    similarite_basse: bool,
    autre_basse: bool,
)
    ensures
        commentaire_de(true, brulant, similarite_haute, similarite_basse)
            == "Mais, c'est un verre vide???"@,
        commentaire_de(true, brulant, similarite_haute, similarite_basse) == commentaire_de(
            true,
            autre_brulant,
            autre_haute,
            autre_basse,
        ),
        commentaire_de(false, brulant, true, similarite_basse) == "Mmh, c'est délicieux !"@,
        commentaire_de(false, brulant, true, similarite_basse) == commentaire_de(
            false,
            autre_brulant,
            true,
            autre_basse,
        ),
        commentaire_de(false, brulant, false, true)
            == "Mais... c'est pas ce que j'ai commandé !"@,
        commentaire_de(false, brulant, false, true) == commentaire_de(
            false,
            autre_brulant,
            false,
            true,
        ),
        commentaire_de(false, true, false, false) == "AIE! C'est brulant!"@,
        commentaire_de(false, false, false, false) == "*Boit sa boisson*"@,
{
}

impl CommandeBoisson {
    /// Le prix de la boisson, en centimes (3,00 ; 3,50 et 5,00).
    pub fn prix(&self) -> (centimes: u32)
        ensures
            centimes == prix_centimes(*self),
    {
        match self {
            CommandeBoisson::Expresso => 300,
            CommandeBoisson::CafeAllonge => 350,
            CommandeBoisson::CafeAuLait => 500,
        }
    }

    /// La boisson idéale pour cette commande : un espresso, allongé de 90 ml
    /// d'eau ou additionné de 150 ml de lait.
    pub fn recette_ideale(&self) -> (recette: Recette)
        ensures
            recette == recette_ideale_de(*self),
    {
        match self {
            CommandeBoisson::Expresso => Recette {
                espresso_ml: ESPRESSO_ML,
                lait_ml: 0,
                eau_ml: 0,
                temp_c: TEMP_BOISSON_CHAUDE,
            },
            CommandeBoisson::CafeAllonge => Recette {
                espresso_ml: ESPRESSO_ML,
                lait_ml: 0,
                eau_ml: 90,
                temp_c: TEMP_BOISSON_CHAUDE,
            },
            CommandeBoisson::CafeAuLait => Recette {
                espresso_ml: ESPRESSO_ML,
                lait_ml: 150,
                eau_ml: 0,
                temp_c: 65,
            },
        }
    }
}

/// Un conteneur de lait froid, qu'on verse dans les boissons.
pub struct ConteneurLait {}

/// Durée d'extraction d'un espresso, en nanosecondes (une seconde).
pub const TEMPS_EXTRACTION_ESPRESSO_NS: u128 = 1_000_000_000;

/// Appelle `Instant::now` de std : l'instant présent de l'horloge monotone.
/// Rien n'en est dit : la valeur dépend du moment de l'appel.
#[verifier::external_body]
fn maintenant() -> Instant {
    Instant::now()
}

/// Appelle `Instant::elapsed` de std sur `debut` (le temps écoulé depuis cet
/// instant) et le convertit en nanosecondes. Rien n'en est dit : la valeur
/// dépend du moment de l'appel.
#[verifier::external_body]
fn ecoule_depuis_ns(debut: &Instant) -> u128 {
    debut.elapsed().as_nanos()
}

/// Une extraction est terminée quand strictement plus que la durée
/// d'extraction s'est écoulée depuis son début.
pub fn extraction_terminee(ecoule_ns: u128) -> (terminee: bool)
    ensures
        terminee == (ecoule_ns > TEMPS_EXTRACTION_ESPRESSO_NS),
{
    ecoule_ns > TEMPS_EXTRACTION_ESPRESSO_NS
}

/// Une boisson sous la machine, et le moment où son extraction a commencé.
struct ExtractionEspresso<B> {
    boisson: B,
    instant_debut: Instant,
}

impl<B> ExtractionEspresso<B> {
    fn new(boisson: B) -> (e: Self)
        ensures
            e.boisson == boisson,
    {
        ExtractionEspresso { boisson, instant_debut: maintenant() }
    }
}

/// Ce que devient la machine quand on pose `boisson` à la position `pos` à
/// l'instant `debut` : rien ne change si la position est déjà occupée.
pub open spec fn apres_depot<B>(
    positions: Seq<Option<(B, Instant)>>,
    pos: int,
    boisson: B,
    debut: Instant,
) -> Seq<Option<(B, Instant)>> {
    if positions[pos] is None {
        positions.update(pos, Some((boisson, debut)))
    } else {
        positions
    }
}

/// Ce que rend un retrait à la position `pos` : la boisson qui s'y trouve si
/// son extraction est terminée, une erreur sinon.
pub open spec fn boisson_retiree<B>(
    positions: Seq<Option<(B, Instant)>>,
    pos: int,
    termine: bool,
) -> Result<B, ()> {
    if termine && positions[pos] is Some {
        Ok(positions[pos]->Some_0.0)
    } else {
        Err(())
    }
}

/// Ce que devient la machine après un retrait à la position `pos`.
pub open spec fn apres_retrait<B>(
    positions: Seq<Option<(B, Instant)>>,
    pos: int,
    termine: bool,
) -> Seq<Option<(B, Instant)>> {
    if termine && positions[pos] is Some {
        positions.update(pos, None)
    } else {
        positions
    }
}

/// Poser une boisson sur une position libre puis la retirer une fois son
/// extraction terminée rend cette même boisson et laisse la machine comme
/// elle était avant le dépôt.
pub proof fn loi_depot_puis_retrait<B>(
    positions: Seq<Option<(B, Instant)>>,
    pos: int,
    boisson: B,
    debut: Instant,
)
    requires
        0 <= pos < positions.len(),
        positions[pos] is None,
    ensures
        boisson_retiree(apres_depot(positions, pos, boisson, debut), pos, true) == Ok::<B, ()>(
            boisson,
        ),
        apres_retrait(apres_depot(positions, pos, boisson, debut), pos, true) == positions,
{
    assert(apres_retrait(apres_depot(positions, pos, boisson, debut), pos, true) =~= positions);
}

/// Un dépôt ou un retrait à une position ne touche à aucune autre position,
/// ni au nombre de positions.
pub proof fn loi_positions_independantes<B>(
    positions: Seq<Option<(B, Instant)>>,
    pos: int,
    autre: int,
    boisson: B,
    debut: Instant,
    termine: bool,
)
    requires
        0 <= pos < positions.len(),
        0 <= autre < positions.len(),
        autre != pos,
    ensures
        apres_depot(positions, pos, boisson, debut).len() == positions.len(),
        apres_depot(positions, pos, boisson, debut)[autre] == positions[autre],
        apres_retrait(positions, pos, termine).len() == positions.len(),
        apres_retrait(positions, pos, termine)[autre] == positions[autre],
{
}

/// Une position n'accueille qu'une boisson à la fois : déposer sur une
/// position occupée ne change rien, et tant que l'extraction n'est pas
/// terminée, un retrait ne rend rien et ne change rien.
pub proof fn loi_une_boisson_par_position<B>(
    positions: Seq<Option<(B, Instant)>>,
    pos: int,
    boisson: B,
    debut: Instant,
)
    requires
        0 <= pos < positions.len(),
    ensures
        positions[pos] is Some ==> apres_depot(positions, pos, boisson, debut) == positions,
        boisson_retiree(positions, pos, false) is Err,
        apres_retrait(positions, pos, false) == positions,
{
}

/// Une machine à espresso industrielle, capable de sortir les meilleurs cafés
/// Capable de faire N cafés en même temps
pub struct MachineEspresso<B, const N: usize> {
    positions: Vec<Option<ExtractionEspresso<B>>>,
}

impl<B, const N: usize> View for MachineEspresso<B, N> {
    type V = Seq<Option<(B, Instant)>>;

    /// Chaque position : vide, ou la boisson posée et le début de son extraction.
    closed spec fn view(&self) -> Seq<Option<(B, Instant)>> {
        self.positions@.map_values(
            |e: Option<ExtractionEspresso<B>>|
                match e {
                    Some(x) => Some((x.boisson, x.instant_debut)),
                    None => None,
                },
        )
    }
}

impl<B, const N: usize> MachineEspresso<B, N> {
    /// La machine a exactement `N` positions.
    #[verifier::type_invariant]
    spec fn a_n_positions(self) -> bool {
        self.positions.len() == N
    }

    /// Crée une nouvelle machine à espresso, toutes positions libres
    pub fn new() -> (machine: Self)
        ensures
            machine@.len() == N,
            forall|i: int| 0 <= i < N ==> #[trigger] machine@[i] is None,
    {
        let mut positions: Vec<Option<ExtractionEspresso<B>>> = Vec::new();
        let mut i: usize = 0;
        while i < N
            invariant
                i <= N,
                positions@.len() == i,
                forall|j: int| 0 <= j < i ==> #[trigger] positions@[j] is None,
            decreases N - i,
        {
            positions.push(None);
            i = i + 1;
        }
        let machine = MachineEspresso { positions };
        assert forall|j: int| 0 <= j < N implies #[trigger] machine@[j] is None by {
            assert(machine.positions@[j] is None);
        }
        machine
    }

    /// Commence l'extration d'un espresso
    /// - `posiotion` : la position de la machine à utiliser. seulement une boisson peut ocupper une
    /// position à la fois
    /// - `boisson` : la boisson à mettre sous la machine
    ///
    /// Retourne un erreur si il y a déjà une boisson à cette position
    pub fn commencer_espresso(&mut self, posiotion: usize, boisson: B) -> (r: Result<(), ()>)
        requires
            posiotion < N,
        ensures
            old(self)@.len() == N,
            final(self)@.len() == N,
            r is Ok <==> old(self)@[posiotion as int] is None,
            exists|debut: Instant|
                final(self)@ == apres_depot(old(self)@, posiotion as int, boisson, debut),
    {
        proof {
            use_type_invariant(&*self);
        }
        if self.positions[posiotion].is_some() {
            assert(self@ == apres_depot(
                old(self)@,
                posiotion as int,
                boisson,
                self.positions[posiotion as int]->Some_0.instant_debut,
            ));
            return Err(());
        }
        let extraction = ExtractionEspresso::new(boisson);
        let ghost debut = extraction.instant_debut;
        self.positions[posiotion] = Some(extraction);
        assert(self@ =~= apres_depot(old(self)@, posiotion as int, boisson, debut));
        Ok(())
    }

    /// Si l'extraction d'espresso est terminé à cette position
    /// Retourne None si il n'y a pas d'espresso à cette position
    ///
    /// Quand il y en a un, la réponse est celle de [`extraction_terminee`] sur
    /// le temps écoulé depuis le début de l'extraction, lu sur l'horloge au
    /// moment de l'appel.
    pub fn est_termine(&self, pos: usize) -> (termine: Option<bool>)
        requires
            pos < N,
        ensures
            self@.len() == N,
            termine is None <==> self@[pos as int] is None,
    {
        proof {
            use_type_invariant(self);
        }
        match &self.positions[pos] {
            None => None,
            Some(extraction) => {
                let ecoule = ecoule_depuis_ns(&extraction.instant_debut);
                Some(extraction_terminee(ecoule))
            },
        }
    }

    /// Retire la boisson de la position `pos` si `termine` dit que son
    /// extraction est terminée ; sinon, ou si la position est vide, rend une
    /// erreur et ne change rien.
    pub fn retirer_si_termine(&mut self, pos: usize, termine: bool) -> (r: Result<B, ()>)
        requires
            pos < N,
        ensures
            old(self)@.len() == N,
            final(self)@.len() == N,
            r == boisson_retiree(old(self)@, pos as int, termine),
            final(self)@ == apres_retrait(old(self)@, pos as int, termine),
    {
        proof {
            use_type_invariant(&*self);
        }
        if !termine || self.positions[pos].is_none() {
            return Err(());
        }
        let extraction = self.positions[pos].take().unwrap();
        assert(self@ =~= old(self)@.update(pos as int, None));
        Ok(extraction.boisson)
    }

    /// Retire une boisson d'une position dans la machine
    /// - `pos` :
    ///
    /// Retourne une erreur si la position est encore en train d'extraire un espresso.
    /// Sinon, retourne la boisson si il y en a une à la position
    ///
    /// Que l'extraction soit terminée dépend de l'horloge : ce qui tient, quoi
    /// qu'elle dise, c'est que le retrait est celui de [`Self::retirer_si_termine`]
    /// pour l'une des deux réponses ; une position vide donne toujours une erreur.
    pub fn retirer_boisson(&mut self, pos: usize) -> (r: Result<B, ()>)
        requires
            pos < N,
        ensures
            old(self)@.len() == N,
            final(self)@.len() == N,
            exists|termine: bool|
                r == boisson_retiree(old(self)@, pos as int, termine) && final(self)@
                    == apres_retrait(old(self)@, pos as int, termine),
            old(self)@[pos as int] is None ==> r is Err,
    {
        match self.est_termine(pos) {
            Some(termine) => self.retirer_si_termine(pos, termine),
            None => {
                assert(apres_retrait(old(self)@, pos as int, false) == old(self)@);
                Err(())
            },
        }
    }
}

} // verus!
