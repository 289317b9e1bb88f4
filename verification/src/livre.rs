use vstd::prelude::*;

verus! {

broadcast use vstd::string::group_string_axioms;

/// Une struct pour un livre
pub struct Livre {
    titre: String,
    auteur: String,
    pages: Vec<String>,
}

impl Livre {
    /// Le titre du livre.
    pub closed spec fn titre(&self) -> Seq<char> {
        self.titre@
    }

    /// L'auteur du livre.
    pub closed spec fn auteur(&self) -> Seq<char> {
        self.auteur@
    }

    /// Le contenu de chaque page, dans l'ordre.
    pub closed spec fn pages(&self) -> Seq<Seq<char>> {
        self.pages@.map_values(|p: String| p@)
    }

    /// Constructeur
    pub fn new(titre: &str, auteur: &str) -> (livre: Livre)
        ensures
            livre.titre() == titre@,
            livre.auteur() == auteur@,
            livre.pages() == Seq::<Seq<char>>::empty(),
    {
        let livre = Livre { titre: titre.to_string(), auteur: auteur.to_string(), pages: vec![] };
        assert(livre.pages() =~= Seq::<Seq<char>>::empty());
        livre
    }

    /// Ajoute une page au livre avec le contenu donné
    pub fn ajouter_page(&mut self, contenu: &str)
        ensures
            final(self).pages() == old(self).pages().push(contenu@),
            final(self).titre() == old(self).titre(),
            final(self).auteur() == old(self).auteur(),
    {
        let page = contenu.to_string();
        self.pages.push(page);
        assert(self.pages() =~= old(self).pages().push(contenu@));
    }

    /// Retourne une référence immuable vers le titre
    pub fn get_titre(&self) -> (titre: &String)
        ensures
            titre@ == self.titre(),
    {
        &self.titre
    }

    /// Retourne une référence immuable vers l'auteur
    pub fn get_auteur(&self) -> (auteur: &String)
        ensures
            auteur@ == self.auteur(),
    {
        &self.auteur
    }

    /// Retourne une référence à la liste de pages
    pub fn get_pages(&self) -> (pages: &Vec<String>)
        ensures
            pages@.len() == self.pages().len(),
            forall|i: int| 0 <= i < pages@.len() ==> #[trigger] pages@[i]@ == self.pages()[i],
    {
        &self.pages
    }
}

} // verus!
